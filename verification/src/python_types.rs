//! The value types that the scripting interface hands to scripts: weapons,
//! powerups, flight parameters, vectors and holdable items.
use vstd::prelude::*;

use crate::text::{append_decimal, int_decimal};

verus! {

/// Why a value of the scripting interface could not be built.
#[derive(Debug, PartialEq, Eq)]
pub enum ValueError {
    ValueError(String),
}

/// Whether every value read from a tuple could be read as an integer.
pub open spec fn all_integers(values: Seq<Option<i32>>) -> bool {
    forall|i: int| 0 <= i < values.len() ==> #[trigger] values[i] is Some
}

/// The error for a tuple of `values` that should hold `n` integers: too few,
/// too many, or not all integers, in this order of checking.
pub open spec fn tuple_error(
    values: Seq<Option<i32>>,
    n: int,
    too_few: Seq<char>,
    too_many: Seq<char>,
    not_integers: Seq<char>,
) -> Option<Seq<char>> {
    if values.len() < n {
        Some(too_few)
    } else if values.len() > n {
        Some(too_many)
    } else if !all_integers(values) {
        Some(not_integers)
    } else {
        None
    }
}

/// Whether every value read from a tuple is an integer.
fn all_present(values: &Vec<Option<i32>>) -> (r: bool)
    ensures
        r == all_integers(values@),
{
    let mut i: usize = 0;
    while i < values.len()
        invariant
            i <= values.len(),
            forall|j: int| 0 <= j < i ==> #[trigger] values@[j] is Some,
        decreases values.len() - i,
    {
        if values[i].is_none() {
            return false;
        }
        i = i + 1;
    }
    true
}

/// The integer read at `index`, where it is one.
fn value_at(values: &Vec<Option<i32>>, index: usize) -> (r: i32)
    requires
        index < values@.len(),
        values@[index as int] is Some,
    ensures
        r == values@[index as int]->0,
{
    match values[index] {
        Some(v) => v,
        None => 0,
    }
}

/// The fifteen weapons of the game, one value each.
#[derive(Clone, Copy, Debug, PartialEq, Eq, Structural)]
pub struct Weapons(
    pub i32,
    pub i32,
    pub i32,
    pub i32,
    pub i32,
    pub i32,
    pub i32,
    pub i32,
    pub i32,
    pub i32,
    pub i32,
    pub i32,
    pub i32,
    pub i32,
    pub i32,
);

/// The weapons with the values of `values`, in order.
pub open spec fn weapons_of(values: Seq<i32>) -> Weapons {
    Weapons(
        values[0],
        values[1],
        values[2],
        values[3],
        values[4],
        values[5],
        values[6],
        values[7],
        values[8],
        values[9],
        values[10],
        values[11],
        values[12],
        values[13],
        values[14],
    )
}

/// The values of `w`, in order.
pub open spec fn weapons_values(w: Weapons) -> Seq<i32> {
    seq![w.0, w.1, w.2, w.3, w.4, w.5, w.6, w.7, w.8, w.9, w.10, w.11, w.12, w.13, w.14]
}

/// The text of weapons values as the scripting interface shows them. The
/// railgun entry shows the lightning gun's value.
pub open spec fn weapons_text(w: Weapons) -> Seq<char> {
    "Weapons(g="@ + int_decimal(w.0 as int) + ", mg="@ + int_decimal(w.1 as int) + ", sg="@ + int_decimal(
        w.2 as int,
    ) + ", gl="@ + int_decimal(w.3 as int) + ", rl="@ + int_decimal(w.4 as int) + ", lg="@ + int_decimal(
        w.5 as int,
    ) + ", rg="@ + int_decimal(w.5 as int) + ", pg="@ + int_decimal(w.7 as int) + ", bfg="@ + int_decimal(
        w.8 as int,
    ) + ", gh="@ + int_decimal(w.9 as int) + ", ng="@ + int_decimal(w.10 as int) + ", pl="@ + int_decimal(
        w.11 as int,
    ) + ", cg="@ + int_decimal(w.12 as int) + ", hmg="@ + int_decimal(w.13 as int) + ", hands="@ + int_decimal(
        w.14 as int,
    ) + ")"@
}

impl Weapons {
    /// The weapons with the values of `value`, in order.
    pub fn from_array(value: [i32; 15]) -> (r: Weapons)
        ensures
            r == weapons_of(value@),
    {
        Weapons(
            value[0],
            value[1],
            value[2],
            value[3],
            value[4],
            value[5],
            value[6],
            value[7],
            value[8],
            value[9],
            value[10],
            value[11],
            value[12],
            value[13],
            value[14],
        )
    }

    /// The values of the weapons, in order.
    pub fn to_array(self) -> (r: [i32; 15])
        ensures
            r@ == weapons_values(self),
    {
        let r = [
            self.0,
            self.1,
            self.2,
            self.3,
            self.4,
            self.5,
            self.6,
            self.7,
            self.8,
            self.9,
            self.10,
            self.11,
            self.12,
            self.13,
            self.14,
        ];
        assert(r@ =~= weapons_values(self));
        r
    }

    /// Builds weapons from the values read from a script's tuple (`None` for
    /// a value that is no integer): it must hold exactly fifteen integers.
    pub fn py_new(values: &Vec<Option<i32>>) -> (r: Result<Weapons, ValueError>)
        ensures
            match tuple_error(
                values@,
                15,
                "tuple did not provide values for all 15 weapons"@,
                "tuple did provide values for more than 15 weapons"@,
                "Weapons values need to be boolean"@,
            ) {
                Some(msg) => r matches Err(ValueError::ValueError(m)) && m@ == msg,
                None => r matches Ok(w) && forall|i: int| 0 <= i < 15 ==> weapons_values(w)[i] == values@[i]->0,
            },
    {
        if values.len() < 15 {
            return Err(ValueError::ValueError(String::from_str("tuple did not provide values for all 15 weapons")));
        }
        if values.len() > 15 {
            return Err(
                ValueError::ValueError(String::from_str("tuple did provide values for more than 15 weapons")),
            );
        }
        if !all_present(values) {
            return Err(ValueError::ValueError(String::from_str("Weapons values need to be boolean")));
        }
        Ok(
            Weapons(
                value_at(values, 0),
                value_at(values, 1),
                value_at(values, 2),
                value_at(values, 3),
                value_at(values, 4),
                value_at(values, 5),
                value_at(values, 6),
                value_at(values, 7),
                value_at(values, 8),
                value_at(values, 9),
                value_at(values, 10),
                value_at(values, 11),
                value_at(values, 12),
                value_at(values, 13),
                value_at(values, 14),
            ),
        )
    }

    /// The text of the weapons.
    pub fn __str__(&self) -> (r: String)
        ensures
            r@ == weapons_text(*self),
    {
        let mut text = String::from_str("Weapons(g=");
        append_decimal(&mut text, self.0 as i64);
        text.append(", mg=");
        append_decimal(&mut text, self.1 as i64);
        text.append(", sg=");
        append_decimal(&mut text, self.2 as i64);
        text.append(", gl=");
        append_decimal(&mut text, self.3 as i64);
        text.append(", rl=");
        append_decimal(&mut text, self.4 as i64);
        text.append(", lg=");
        append_decimal(&mut text, self.5 as i64);
        text.append(", rg=");
        append_decimal(&mut text, self.5 as i64);
        text.append(", pg=");
        append_decimal(&mut text, self.7 as i64);
        text.append(", bfg=");
        append_decimal(&mut text, self.8 as i64);
        text.append(", gh=");
        append_decimal(&mut text, self.9 as i64);
        text.append(", ng=");
        append_decimal(&mut text, self.10 as i64);
        text.append(", pl=");
        append_decimal(&mut text, self.11 as i64);
        text.append(", cg=");
        append_decimal(&mut text, self.12 as i64);
        text.append(", hmg=");
        append_decimal(&mut text, self.13 as i64);
        text.append(", hands=");
        append_decimal(&mut text, self.14 as i64);
        text.append(")");
        text
    }

    /// The representation of the weapons: the same text.
    pub fn __repr__(&self) -> (r: String)
        ensures
            r@ == weapons_text(*self),
    {
        self.__str__()
    }
}

/// Building weapons from an array and reading the array back gives the array.
pub proof fn law_weapons_array_roundtrip(value: [i32; 15])
    ensures
        weapons_values(weapons_of(value@)) == value@,
{
    assert(weapons_values(weapons_of(value@)) =~= value@);
}

/// The six exposed powerups: quad damage, battle suit, haste, invisibility,
/// regeneration, invulnerability.
#[derive(Clone, Copy, Debug, PartialEq, Eq, Structural)]
pub struct Powerups(pub i32, pub i32, pub i32, pub i32, pub i32, pub i32);

/// The values of `p`, in order.
pub open spec fn powerups_values(p: Powerups) -> Seq<i32> {
    seq![p.0, p.1, p.2, p.3, p.4, p.5]
}

/// The text of powerups as the scripting interface shows them.
pub open spec fn powerups_text(p: Powerups) -> Seq<char> {
    "Powerups(quad="@ + int_decimal(p.0 as int) + ", battlesuit="@ + int_decimal(p.1 as int) + ", haste="@
        + int_decimal(p.2 as int) + ", invisibility="@ + int_decimal(p.3 as int) + ", regeneration="@
        + int_decimal(p.4 as int) + ", invulnerability="@ + int_decimal(p.5 as int) + ")"@
}

impl Powerups {
    /// The powerups with the values of `value`, in order.
    pub fn from_array(value: [i32; 6]) -> (r: Powerups)
        ensures
            powerups_values(r) == value@,
    {
        let r = Powerups(value[0], value[1], value[2], value[3], value[4], value[5]);
        assert(powerups_values(r) =~= value@);
        r
    }

    /// The values of the powerups, in order.
    pub fn to_array(self) -> (r: [i32; 6])
        ensures
            r@ == powerups_values(self),
    {
        let r = [self.0, self.1, self.2, self.3, self.4, self.5];
        assert(r@ =~= powerups_values(self));
        r
    }

    /// Builds powerups from the values read from a script's tuple: it must
    /// hold exactly six integers.
    pub fn py_new(values: &Vec<Option<i32>>) -> (r: Result<Powerups, ValueError>)
        ensures
            match tuple_error(
                values@,
                6,
                "tuple did not provide values for all 6 powerups"@,
                "tuple did provide values for more than 6 powerups"@,
                "Powerups values need to be integer"@,
            ) {
                Some(msg) => r matches Err(ValueError::ValueError(m)) && m@ == msg,
                None => r matches Ok(p) && forall|i: int| 0 <= i < 6 ==> powerups_values(p)[i] == values@[i]->0,
            },
    {
        if values.len() < 6 {
            return Err(ValueError::ValueError(String::from_str("tuple did not provide values for all 6 powerups")));
        }
        if values.len() > 6 {
            return Err(ValueError::ValueError(String::from_str("tuple did provide values for more than 6 powerups")));
        }
        if !all_present(values) {
            return Err(ValueError::ValueError(String::from_str("Powerups values need to be integer")));
        }
        Ok(
            Powerups(
                value_at(values, 0),
                value_at(values, 1),
                value_at(values, 2),
                value_at(values, 3),
                value_at(values, 4),
                value_at(values, 5),
            ),
        )
    }

    /// The text of the powerups.
    pub fn __str__(&self) -> (r: String)
        ensures
            r@ == powerups_text(*self),
    {
        let mut text = String::from_str("Powerups(quad=");
        append_decimal(&mut text, self.0 as i64);
        text.append(", battlesuit=");
        append_decimal(&mut text, self.1 as i64);
        text.append(", haste=");
        append_decimal(&mut text, self.2 as i64);
        text.append(", invisibility=");
        append_decimal(&mut text, self.3 as i64);
        text.append(", regeneration=");
        append_decimal(&mut text, self.4 as i64);
        text.append(", invulnerability=");
        append_decimal(&mut text, self.5 as i64);
        text.append(")");
        text
    }

    /// The representation of the powerups: the same text.
    pub fn __repr__(&self) -> (r: String)
        ensures
            r@ == powerups_text(*self),
    {
        self.__str__()
    }
}

/// The parameters of the flight holdable: fuel, maximal fuel, thrust, refuel rate.
#[derive(Clone, Copy, Debug, PartialEq, Eq, Structural)]
pub struct Flight(pub i32, pub i32, pub i32, pub i32);

/// The text of flight parameters as the scripting interface shows them.
pub open spec fn flight_text(f: Flight) -> Seq<char> {
    "Flight(fuel="@ + int_decimal(f.0 as int) + ", max_fuel="@ + int_decimal(f.1 as int) + ", thrust="@
        + int_decimal(f.2 as int) + ", refuel="@ + int_decimal(f.3 as int) + ")"@
}

impl Flight {
    /// The parameters in order.
    pub fn to_array(self) -> (r: [i32; 4])
        ensures
            r@ == seq![self.0, self.1, self.2, self.3],
    {
        let r = [self.0, self.1, self.2, self.3];
        assert(r@ =~= seq![self.0, self.1, self.2, self.3]);
        r
    }

    /// Builds flight parameters from the values read from a script's tuple:
    /// it must hold exactly four integers.
    pub fn py_new(values: &Vec<Option<i32>>) -> (r: Result<Flight, ValueError>)
        ensures
            match tuple_error(
                values@,
                4,
                "tuple did not provide values for all 4 flight parameters"@,
                "tuple did provide values for more than 4 flight parameters"@,
                "Flight values need to be integer"@,
            ) {
                Some(msg) => r matches Err(ValueError::ValueError(m)) && m@ == msg,
                None => r matches Ok(f) && f.0 == values@[0]->0 && f.1 == values@[1]->0 && f.2 == values@[2]->0
                    && f.3 == values@[3]->0,
            },
    {
        if values.len() < 4 {
            return Err(
                ValueError::ValueError(String::from_str("tuple did not provide values for all 4 flight parameters")),
            );
        }
        if values.len() > 4 {
            return Err(
                ValueError::ValueError(String::from_str("tuple did provide values for more than 4 flight parameters")),
            );
        }
        if !all_present(values) {
            return Err(ValueError::ValueError(String::from_str("Flight values need to be integer")));
        }
        Ok(Flight(value_at(values, 0), value_at(values, 1), value_at(values, 2), value_at(values, 3)))
    }

    /// The text of the flight parameters.
    pub fn __str__(&self) -> (r: String)
        ensures
            r@ == flight_text(*self),
    {
        let mut text = String::from_str("Flight(fuel=");
        append_decimal(&mut text, self.0 as i64);
        text.append(", max_fuel=");
        append_decimal(&mut text, self.1 as i64);
        text.append(", thrust=");
        append_decimal(&mut text, self.2 as i64);
        text.append(", refuel=");
        append_decimal(&mut text, self.3 as i64);
        text.append(")");
        text
    }

    /// The representation of the flight parameters: the same text.
    pub fn __repr__(&self) -> (r: String)
        ensures
            r@ == flight_text(*self),
    {
        self.__str__()
    }
}

/// A three-dimensional vector of integers.
#[derive(Clone, Copy, Debug, PartialEq, Eq, Structural)]
pub struct Vector3(pub i32, pub i32, pub i32);

/// The number of values in `values`, among the first `n`, that are integers.
pub open spec fn count_integers(values: Seq<Option<i32>>, n: int) -> int
    decreases n,
{
    if n <= 0 {
        0
    } else {
        count_integers(values, n - 1) + if values[n - 1] is Some {
            1int
        } else {
            0int
        }
    }
}

/// The text of a vector as the scripting interface shows it.
pub open spec fn vector3_text(v: Vector3) -> Seq<char> {
    "Vector3(x="@ + int_decimal(v.0 as int) + ", y="@ + int_decimal(v.1 as int) + ", z="@ + int_decimal(v.2 as int)
        + ")"@
}

impl Vector3 {
    /// Builds a vector from the values read from a script's tuple: it must
    /// hold exactly three values, each an integer.
    pub fn py_new(values: &Vec<Option<i32>>) -> (r: Result<Vector3, ValueError>)
        ensures
            values@.len() < 3 ==> (r matches Err(ValueError::ValueError(m)) && m@
                == "tuple did not provide values for all three dimensions"@),
            values@.len() > 3 ==> (r matches Err(ValueError::ValueError(m)) && m@
                == "tuple did provide values for more than three dimensions"@),
            values@.len() == 3 && count_integers(values@, 3) != 3 ==> (r matches Err(ValueError::ValueError(m))
                && m@ == "Vector3 values need to be integer"@),
            values@.len() == 3 && count_integers(values@, 3) == 3 ==> r == Ok::<Vector3, ValueError>(
                Vector3(values@[0]->0, values@[1]->0, values@[2]->0),
            ),
    {
        if values.len() < 3 {
            return Err(ValueError::ValueError(String::from_str("tuple did not provide values for all three dimensions")));
        }
        if values.len() > 3 {
            return Err(
                ValueError::ValueError(String::from_str("tuple did provide values for more than three dimensions")),
            );
        }
        // the values that are integers, in order: three exactly where all are
        proof {
            reveal_with_fuel(count_integers, 4);
        }
        match (values[0], values[1], values[2]) {
            (Some(x), Some(y), Some(z)) => Ok(Vector3(x, y, z)),
            _ => Err(ValueError::ValueError(String::from_str("Vector3 values need to be integer"))),
        }
    }

    /// The text of the vector.
    pub fn __repr__(&self) -> (r: String)
        ensures
            r@ == vector3_text(*self),
    {
        let mut text = String::from_str("Vector3(x=");
        append_decimal(&mut text, self.0 as i64);
        text.append(", y=");
        append_decimal(&mut text, self.1 as i64);
        text.append(", z=");
        append_decimal(&mut text, self.2 as i64);
        text.append(")");
        text
    }

    /// The values in order, as a script iterates over them.
    pub fn __iter__(&self) -> (r: Vec<i32>)
        ensures
            r@ == seq![self.0, self.1, self.2],
    {
        let r: Vec<i32> = vec![self.0, self.1, self.2];
        assert(r@ =~= seq![self.0, self.1, self.2]);
        r
    }
}

/// The holdable items, as the scripting interface names them.
#[derive(Clone, Copy, Debug, PartialEq, Eq, Structural)]
pub enum Holdable {
    Nothing,
    Teleporter,
    MedKit,
    Kamikaze,
    Portal,
    Invulnerability,
    Flight,
    Unknown,
}

/// The holdable item for an item list index: unknown for any index that is
/// no holdable.
pub open spec fn holdable_of(value: i32) -> Holdable {
    if value == 0 {
        Holdable::Nothing
    } else if value == 27 {
        Holdable::Teleporter
    } else if value == 28 {
        Holdable::MedKit
    } else if value == 34 {
        Holdable::Flight
    } else if value == 37 {
        Holdable::Kamikaze
    } else if value == 38 {
        Holdable::Portal
    } else if value == 39 {
        Holdable::Invulnerability
    } else {
        Holdable::Unknown
    }
}

/// The item list index of a holdable item; zero for none and for an unknown one.
pub open spec fn holdable_index(holdable: Holdable) -> i32 {
    match holdable {
        Holdable::Nothing => 0,
        Holdable::Teleporter => 27,
        Holdable::MedKit => 28,
        Holdable::Flight => 34,
        Holdable::Kamikaze => 37,
        Holdable::Portal => 38,
        Holdable::Invulnerability => 39,
        Holdable::Unknown => 0,
    }
}

/// The name a script sees for a holdable item; none for no item.
pub open spec fn holdable_name(holdable: Holdable) -> Option<Seq<char>> {
    match holdable {
        Holdable::Nothing => None,
        Holdable::Teleporter => Some("teleporter"@),
        Holdable::MedKit => Some("medkit"@),
        Holdable::Kamikaze => Some("kamikaze"@),
        Holdable::Portal => Some("portal"@),
        Holdable::Invulnerability => Some("invulnerability"@),
        Holdable::Flight => Some("flight"@),
        Holdable::Unknown => Some("unknown"@),
    }
}

impl Holdable {
    /// The holdable item for an item list index.
    pub fn from_number(value: i32) -> (r: Holdable)
        ensures
            r == holdable_of(value),
    {
        if value == 0 {
            Holdable::Nothing
        } else if value == 27 {
            Holdable::Teleporter
        } else if value == 28 {
            Holdable::MedKit
        } else if value == 34 {
            Holdable::Flight
        } else if value == 37 {
            Holdable::Kamikaze
        } else if value == 38 {
            Holdable::Portal
        } else if value == 39 {
            Holdable::Invulnerability
        } else {
            Holdable::Unknown
        }
    }

    /// The item list index of the holdable item.
    pub fn number(self) -> (r: i32)
        ensures
            r == holdable_index(self),
    {
        match self {
            Holdable::Nothing => 0,
            Holdable::Teleporter => 27,
            Holdable::MedKit => 28,
            Holdable::Flight => 34,
            Holdable::Kamikaze => 37,
            Holdable::Portal => 38,
            Holdable::Invulnerability => 39,
            Holdable::Unknown => 0,
        }
    }

    /// The name a script sees for the holdable item.
    pub fn name(self) -> (r: Option<String>)
        ensures
            match r {
                Some(s) => holdable_name(self) == Some(s@),
                None => holdable_name(self) is None,
            },
    {
        match self {
            Holdable::Nothing => None,
            Holdable::Teleporter => Some(String::from_str("teleporter")),
            Holdable::MedKit => Some(String::from_str("medkit")),
            Holdable::Kamikaze => Some(String::from_str("kamikaze")),
            Holdable::Portal => Some(String::from_str("portal")),
            Holdable::Invulnerability => Some(String::from_str("invulnerability")),
            Holdable::Flight => Some(String::from_str("flight")),
            Holdable::Unknown => Some(String::from_str("unknown")),
        }
    }
}

/// Every known holdable item survives the trip to its index and back.
pub proof fn law_holdable_index_roundtrip(holdable: Holdable)
    requires
        holdable != Holdable::Unknown,
    ensures
        holdable_of(holdable_index(holdable)) == holdable,
{
}

/// The comparisons a script can make.
#[derive(Clone, Copy, Debug, PartialEq, Eq, Structural)]
pub enum CompareOp {
    Lt,
    Le,
    Eq,
    Ne,
    Gt,
    Ge,
}

/// What comparing two values that are `equal` or not with `op` gives: a
/// truth value for equality and inequality; `None` (not implemented) for an
/// ordering.
pub open spec fn compared(equal: bool, op: CompareOp) -> Option<bool> {
    match op {
        CompareOp::Eq => Some(equal),
        CompareOp::Ne => Some(!equal),
        _ => None,
    }
}

/// What comparing two values that are `equal` or not with `op` gives.
fn compare_with(equal: bool, op: CompareOp) -> (r: Option<bool>)
    ensures
        r == compared(equal, op),
{
    match op {
        CompareOp::Eq => Some(equal),
        CompareOp::Ne => Some(!equal),
        _ => None,
    }
}

impl Weapons {
    /// Compares two weapon sets with `op`: only equality and inequality are implemented.
    pub fn __richcmp__(&self, other: &Self, op: CompareOp) -> (r: Option<bool>)
        ensures
            r == compared(*self == *other, op),
    {
        compare_with(*self == *other, op)
    }
}

impl Powerups {
    /// Compares two powerup sets with `op`: only equality and inequality are implemented.
    pub fn __richcmp__(&self, other: &Self, op: CompareOp) -> (r: Option<bool>)
        ensures
            r == compared(*self == *other, op),
    {
        compare_with(*self == *other, op)
    }
}

impl Flight {
    /// Compares two sets of flight parameters with `op`: only equality and
    /// inequality are implemented.
    pub fn __richcmp__(&self, other: &Self, op: CompareOp) -> (r: Option<bool>)
        ensures
            r == compared(*self == *other, op),
    {
        compare_with(*self == *other, op)
    }
}

impl Vector3 {
    /// Compares two vectors with `op`: only equality and inequality are implemented.
    pub fn __richcmp__(&self, other: &Self, op: CompareOp) -> (r: Option<bool>)
        ensures
            r == compared(*self == *other, op),
    {
        compare_with(*self == *other, op)
    }

    /// The text of the vector, as `__repr__` gives it.
    pub fn __str__(&self) -> (r: String)
        ensures
            r@ == vector3_text(*self),
    {
        self.__repr__()
    }
}

} // verus!
