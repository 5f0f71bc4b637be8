//! The state of a player in the game as the scripting interface reports it.
use vstd::prelude::*;

use crate::current_level::CurrentLevel;
use crate::game_client::{has_weapon_bit, powerup_time_left, powerups_readable, GameClient};
use crate::game_entity::GameEntity;
use crate::python_api::{check_client_id, client_id_checked, PythonError};
use crate::python_types::{
    flight_text, holdable_name, holdable_of, powerups_text, powerups_values, vector3_text, weapons_text,
    weapons_values, Flight, Holdable, Powerups, Vector3, Weapons,
};
use crate::quake_types::{
    exposed_powerup_slot, pmtype_t, weapon_number, weapon_of_number, EF_TALK, STAT_ARMOR, STAT_CUR_FLIGHT_FUEL,
    STAT_FLIGHT_REFUEL, STAT_FLIGHT_THRUST, STAT_HOLDABLE_ITEM, STAT_MAX_FLIGHT_FUEL, STAT_WEAPONS,
};
use crate::text::{append_decimal, int_decimal};

verus! {

/// A player's state in the game. Position and velocity are the engine's
/// values cut to integers.
#[derive(Debug)]
pub struct PlayerState {
    pub is_alive: bool,
    pub position: Vector3,
    pub velocity: Vector3,
    pub health: i32,
    pub armor: i32,
    pub noclip: bool,
    pub weapon: i32,
    pub weapons: Weapons,
    pub ammo: Weapons,
    pub powerups: Powerups,
    pub holdable: Option<String>,
    pub flight: Flight,
    pub is_chatting: bool,
    pub is_frozen: bool,
}

/// Whether `r` is the state of the player of entity `e` (which has a player)
/// at `level_time`, with the given position and velocity.
pub open spec fn is_player_state_of(r: PlayerState, e: GameEntity, position: Vector3, velocity: Vector3, level_time: i32) -> bool {
    let c = e.gentity_t.client->0;
    &&& r.is_alive == (c.ps.pm_type == pmtype_t::PM_NORMAL)
    &&& r.position == position
    &&& r.velocity == velocity
    &&& r.health == e.gentity_t.health
    &&& r.armor == c.ps.stats[STAT_ARMOR as int]
    &&& r.noclip == c.noclip
    &&& r.weapon == weapon_number(weapon_of_number(c.ps.weapon))
    &&& forall|i: int|
        0 <= i < 15 ==> #[trigger] weapons_values(r.weapons)[i] == (if has_weapon_bit(
            c.ps.stats[STAT_WEAPONS as int],
            i,
        ) {
            1i32
        } else {
            0i32
        })
    &&& weapons_values(r.ammo) == c.ps.ammo@.subrange(1, 16)
    &&& forall|q: int|
        0 <= q < 6 ==> #[trigger] powerups_values(r.powerups)[q] == powerup_time_left(
            c.ps.powerups[exposed_powerup_slot(q)],
            level_time,
        )
    &&& match r.holdable {
        Some(name) => holdable_name(holdable_of(c.ps.stats[STAT_HOLDABLE_ITEM as int])) == Some(name@),
        None => holdable_name(holdable_of(c.ps.stats[STAT_HOLDABLE_ITEM as int])) is None,
    }
    &&& r.flight == Flight(
        c.ps.stats[STAT_CUR_FLIGHT_FUEL as int],
        c.ps.stats[STAT_MAX_FLIGHT_FUEL as int],
        c.ps.stats[STAT_FLIGHT_THRUST as int],
        c.ps.stats[STAT_FLIGHT_REFUEL as int],
    )
    &&& r.is_chatting == (c.ps.eFlags & EF_TALK != 0)
    &&& r.is_frozen == (c.ps.pm_type == pmtype_t::PM_FREEZE)
}

/// The text of a truth value.
pub open spec fn bool_text(b: bool) -> Seq<char> {
    if b {
        "true"@
    } else {
        "false"@
    }
}

/// The text of a player's state as the scripting interface shows it.
pub open spec fn player_state_text(s: PlayerState) -> Seq<char> {
    "PlayerState(is_alive="@ + bool_text(s.is_alive) + ", position="@ + vector3_text(s.position) + ", veclocity="@
        + vector3_text(s.velocity) + ", health="@ + int_decimal(s.health as int) + ", armor="@ + int_decimal(
        s.armor as int,
    ) + ", noclip="@ + bool_text(s.noclip) + ", weapon="@ + int_decimal(s.weapon as int) + ", weapons="@
        + weapons_text(s.weapons) + ", ammo="@ + weapons_text(s.ammo) + ", powerups="@ + powerups_text(s.powerups)
        + ", holdable="@ + match s.holdable {
        Some(name) => name@,
        None => "None"@,
    } + ", flight="@ + flight_text(s.flight) + ", is_chatting="@ + bool_text(s.is_chatting) + ", is_frozen="@
        + bool_text(s.is_frozen) + ")"@
}

/// Appends the text of a truth value.
fn append_bool(text: &mut String, b: bool)
    ensures
        final(text)@ == old(text)@ + bool_text(b),
{
    proof {
        reveal_strlit("true");
        reveal_strlit("false");
    }
    if b {
        text.append("true");
    } else {
        text.append("false");
    }
}

impl PlayerState {
    /// The state of the player of `game_entity` at the level time of
    /// `current_level`, with the position and velocity the engine holds.
    #[verifier::rlimit(40)]
    pub fn from_game_entity(
        game_entity: &GameEntity,
        position: Vector3,
        velocity: Vector3,
        current_level: &CurrentLevel,
    ) -> (r: PlayerState)
        requires
            game_entity.gentity_t.client is Some,
            powerups_readable(game_entity.gentity_t.client->0.ps.powerups@, current_level.level.time),
        ensures
            is_player_state_of(r, *game_entity, position, velocity, current_level.level.time),
    {
        let game_client = match game_entity.gentity_t.client {
            Some(c) => GameClient { game_client: c },
            None => {
                assert(false);
                GameClient { game_client: game_entity.gentity_t.client.unwrap() }
            },
        };
        let weapons = game_client.get_weapons();
        let ammos = game_client.get_ammos();
        let powerups = game_client.get_powerups(current_level);
        let r = PlayerState {
            is_alive: game_client.is_alive(),
            position,
            velocity,
            health: game_entity.get_health(),
            armor: game_client.get_armor(),
            noclip: game_client.get_noclip(),
            weapon: game_client.get_weapon().number(),
            weapons: Weapons::from_array(weapons),
            ammo: Weapons::from_array(ammos),
            powerups: Powerups::from_array(powerups),
            holdable: Holdable::from_number(game_client.get_holdable()).name(),
            flight: Flight(
                game_client.get_current_flight_fuel(),
                game_client.get_max_flight_fuel(),
                game_client.get_flight_thrust(),
                game_client.get_flight_refuel(),
            ),
            is_chatting: game_client.is_chatting(),
            is_frozen: game_client.is_frozen(),
        };
        assert(weapons_values(r.ammo) =~= ammos@);
        assert(weapons_values(r.weapons) =~= weapons@);
        assert(powerups_values(r.powerups) =~= powerups@);
        r
    }

    /// The text of the state.
    pub fn __str__(&self) -> (r: String)
        ensures
            r@ == player_state_text(*self),
    {
        let mut text = String::from_str("PlayerState(is_alive=");
        append_bool(&mut text, self.is_alive);
        text.append(", position=");
        text.append(self.position.__repr__().as_str());
        text.append(", veclocity=");
        text.append(self.velocity.__repr__().as_str());
        text.append(", health=");
        append_decimal(&mut text, self.health as i64);
        text.append(", armor=");
        append_decimal(&mut text, self.armor as i64);
        text.append(", noclip=");
        append_bool(&mut text, self.noclip);
        text.append(", weapon=");
        append_decimal(&mut text, self.weapon as i64);
        text.append(", weapons=");
        text.append(self.weapons.__str__().as_str());
        text.append(", ammo=");
        text.append(self.ammo.__str__().as_str());
        text.append(", powerups=");
        text.append(self.powerups.__str__().as_str());
        text.append(", holdable=");
        match &self.holdable {
            Some(name) => text.append(name.as_str()),
            None => text.append("None"),
        }
        text.append(", flight=");
        text.append(self.flight.__str__().as_str());
        text.append(", is_chatting=");
        append_bool(&mut text, self.is_chatting);
        text.append(", is_frozen=");
        append_bool(&mut text, self.is_frozen);
        text.append(")");
        text
    }

    /// The text of the state, as `__str__` gives it.
    pub fn __repr__(&self) -> (r: String)
        ensures
            r@ == player_state_text(*self),
    {
        self.__str__()
    }
}

/// The state of the player at `client_id`, where the engine holds `entity`
/// for it with the given position and velocity: none where there is no
/// entity or it has no player.
pub fn player_state(
    maxclients: Option<i32>,
    client_id: i32,
    entity: Option<&GameEntity>,
    position: Vector3,
    velocity: Vector3,
    current_level: &CurrentLevel,
) -> (r: Result<Option<PlayerState>, PythonError>)
    requires
        match entity {
            Some(e) => e.gentity_t.client is Some ==> powerups_readable(
                e.gentity_t.client->0.ps.powerups@,
                current_level.level.time,
            ),
            None => true,
        },
    ensures
        client_id_checked(
            maxclients,
            client_id,
            false,
            match r {
                Ok(_) => Ok(()),
                Err(e) => Err(e),
            },
        ),
        r matches Ok(opt) ==> match entity {
            Some(e) => if e.gentity_t.client is Some {
                opt matches Some(s) && is_player_state_of(s, *e, position, velocity, current_level.level.time)
            } else {
                opt is None
            },
            None => opt is None,
        },
{
    match check_client_id(maxclients, client_id, false) {
        Err(e) => return Err(e),
        Ok(()) => {},
    }
    match entity {
        None => Ok(None),
        Some(e) => {
            if e.gentity_t.client.is_some() {
                Ok(Some(PlayerState::from_game_entity(e, position, velocity, current_level)))
            } else {
                Ok(None)
            }
        },
    }
}

} // verus!
