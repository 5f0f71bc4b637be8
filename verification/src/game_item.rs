//! The items of the game: a model of the engine's `gitem_t` and of its item list.
use vstd::prelude::*;

use crate::engine_error::{null_pointer_error, QuakeLiveEngineError};
use crate::game_client::{c_string_bytes, c_string_prefix, decode_utf8_lossy, utf8_lossy_decoding};
use crate::quake_types::{entity_event_t, itemType_t};

verus! {

/// A model of the engine's `gitem_t`.
#[derive(Clone, Debug, PartialEq, Eq)]
pub struct GItem {
    /// The C string of the item's class name; `None` where the engine stores
    /// a null pointer, which ends the item list.
    pub classname: Option<Vec<u8>>,
    pub giType: itemType_t,
    pub giTag: i32,
    pub quantity: i32,
}

/// An item of the game's item list.
#[derive(Clone, Debug, PartialEq, Eq)]
pub struct GameItem {
    pub gitem_t: GItem,
    /// Where the engine keeps the item, counted in whole items.
    pub address: i64,
}

/// The item id of an item at `address` in a list that starts at `list_start`
/// (both counted in whole items): its offset, or -1 where that does not fit.
pub open spec fn item_offset_id(address: i64, list_start: i64) -> i32 {
    if i32::MIN <= address - list_start <= i32::MAX {
        (address - list_start) as i32
    } else {
        -1i32
    }
}

/// What the engine is asked to do to spawn an item: launch it at `origin`
/// (with a small upward velocity), make it think never again, and raise
/// `event` with `event_param` on it so that the clients show it scaling up.
#[derive(Clone, Copy, Debug, PartialEq, Eq)]
pub struct ItemSpawn {
    pub origin: (i32, i32, i32),
    pub next_think: i32,
    pub clear_think: bool,
    pub event: entity_event_t,
    pub event_param: i32,
}

/// The last index in `1..=4096` below `len` whose item has a class name, or
/// 0 where none has; searching down from `upto`.
pub open spec fn last_named_item(items: Seq<GItem>, upto: int) -> int
    decreases upto,
{
    if upto <= 0 {
        0
    } else if upto < items.len() && items[upto].classname is Some {
        upto
    } else {
        last_named_item(items, upto - 1)
    }
}

/// The number of items in the item list: one more than the highest index in
/// `1..=4096` that holds a named item; zero where the engine has no list.
pub open spec fn num_items(item_list: Option<Seq<GItem>>) -> int {
    match item_list {
        None => 0,
        Some(items) => last_named_item(items, 4096) + 1,
    }
}

/// Whether two items hold the same values.
pub open spec fn same_item(a: GItem, b: GItem) -> bool {
    &&& a.giType == b.giType
    &&& a.giTag == b.giTag
    &&& a.quantity == b.quantity
    &&& match (a.classname, b.classname) {
        (Some(x), Some(y)) => x@ == y@,
        (None, None) => true,
        _ => false,
    }
}

/// A copy of an item.
pub fn copy_item(item: &GItem) -> (r: GItem)
    ensures
        same_item(r, *item),
{
    let classname = match &item.classname {
        Some(name) => {
            let copied = name.clone();
            assert(copied@ =~= name@);
            Some(copied)
        },
        None => None,
    };
    GItem { classname, giType: item.giType, giTag: item.giTag, quantity: item.quantity }
}

/// The item with id `item_id` of the item list, where the engine hands one
/// out: an id from 0 below the number of items that the list holds.
pub open spec fn item_at(item_list: Option<Seq<GItem>>, item_id: int) -> Option<GItem> {
    match item_list {
        Some(items) => if 0 <= item_id < num_items(item_list) && item_id < items.len() {
            Some(items[item_id])
        } else {
            None
        },
        None => None,
    }
}

/// The item list as a sequence, `None` where the engine has none.
pub open spec fn list_view(item_list: Option<&Vec<GItem>>) -> Option<Seq<GItem>> {
    match item_list {
        Some(items) => Some(items@),
        None => None,
    }
}

impl GameItem {
    /// Wraps the item that the engine handed over at `address`; fails where
    /// it handed over none.
    pub fn try_from(game_item: Option<GItem>, address: i64) -> (r: Result<GameItem, QuakeLiveEngineError>)
        ensures
            match game_item {
                Some(item) => r matches Ok(g) && g.gitem_t == item && g.address == address,
                None => r matches Err(QuakeLiveEngineError::NullPointerPassed(msg)) && msg@ == "null pointer passed"@,
            },
    {
        match game_item {
            Some(item) => Ok(GameItem { gitem_t: item, address }),
            None => Err(null_pointer_error()),
        }
    }

    /// The number of items in the engine's item list (`None` where the engine
    /// has none): one more than the highest index in `1..=4096` with a named item.
    pub fn get_num_items(item_list: Option<&Vec<GItem>>) -> (r: i32)
        ensures
            r == num_items(
                match item_list {
                    Some(items) => Some(items@),
                    None => None,
                },
            ),
    {
        match item_list {
            None => 0,
            Some(items) => {
                let mut index: usize = 4096;
                while index > 0 && !(index < items.len() && items[index].classname.is_some())
                    invariant
                        index <= 4096,
                        last_named_item(items@, index as int) == last_named_item(items@, 4096),
                    decreases index,
                {
                    index = index - 1;
                }
                (index as i32) + 1
            },
        }
    }

    /// The item with id `item_id` of the item list (`None` where the engine
    /// has none): an invalid id for one outside the number of items; the
    /// item, found at offset `item_id` from the list's start, otherwise.
    pub fn from_item_id(item_list: Option<&Vec<GItem>>, item_id: i32) -> (r: Result<GameItem, QuakeLiveEngineError>)
        ensures
            !(0 <= item_id < num_items(list_view(item_list))) ==> r == Err::<GameItem, QuakeLiveEngineError>(
                QuakeLiveEngineError::InvalidId(item_id),
            ),
            0 <= item_id < num_items(list_view(item_list)) ==> match item_at(list_view(item_list), item_id as int) {
                Some(item) => r matches Ok(g) && same_item(g.gitem_t, item) && g.address == item_id,
                None => r matches Err(QuakeLiveEngineError::EntityNotFound(m)) && m@ == "entity not found"@,
            },
    {
        let count = GameItem::get_num_items(item_list);
        if item_id < 0 || item_id >= count {
            return Err(QuakeLiveEngineError::InvalidId(item_id));
        }
        match item_list {
            None => Err(QuakeLiveEngineError::EntityNotFound(String::from_str("entity not found"))),
            Some(items) => {
                if (item_id as usize) < items.len() {
                    Ok(GameItem { gitem_t: copy_item(&items[item_id as usize]), address: item_id as i64 })
                } else {
                    Err(QuakeLiveEngineError::EntityNotFound(String::from_str("entity not found")))
                }
            },
        }
    }

    /// The item's id in the item list that starts at `bg_itemlist`, or -1
    /// where the engine has no list.
    pub fn get_item_id(&self, bg_itemlist: Option<i64>) -> (r: i32)
        ensures
            r == match bg_itemlist {
                Some(start) => item_offset_id(self.address, start),
                None => -1i32,
            },
    {
        match bg_itemlist {
            None => -1,
            Some(start) => self.get_item_id_intern(start),
        }
    }

    /// The item's id in the item list that starts at `bg_itemlist`: its
    /// offset from the start, or -1 where that does not fit an id.
    pub fn get_item_id_intern(&self, bg_itemlist: i64) -> (r: i32)
        ensures
            r == item_offset_id(self.address, bg_itemlist),
    {
        let offset: i128 = self.address as i128 - bg_itemlist as i128;
        if -2147483648i128 <= offset && offset <= 2147483647i128 {
            offset as i32
        } else {
            -1
        }
    }

    /// The item's class name, decoded as UTF-8 with invalid sequences replaced.
    pub fn get_classname(&self) -> (r: String)
        requires
            self.gitem_t.classname is Some,
        ensures
            r@ == utf8_lossy_decoding(c_string_bytes(self.gitem_t.classname->0@)),
            vstd::utf8::valid_utf8(c_string_bytes(self.gitem_t.classname->0@)) ==> r@ == vstd::utf8::decode_utf8(
                c_string_bytes(self.gitem_t.classname->0@),
            ),
    {
        match &self.gitem_t.classname {
            Some(name) => {
                let bytes = c_string_prefix(name.as_slice());
                decode_utf8_lossy(bytes.as_slice())
            },
            None => String::new(),
        }
    }

    /// What the engine is asked to do to spawn this item at `origin`; nothing
    /// where no engine is loaded.
    pub fn spawn(&self, origin: (i32, i32, i32), engine_loaded: bool) -> (r: Option<ItemSpawn>)
        ensures
            engine_loaded ==> r == Some(
                ItemSpawn {
                    origin,
                    next_think: 0,
                    clear_think: true,
                    event: entity_event_t::EV_ITEM_RESPAWN,
                    event_param: 0,
                },
            ),
            !engine_loaded ==> r is None,
    {
        if !engine_loaded {
            return None;
        }
        Some(self.spawn_intern(origin))
    }

    /// What the engine is asked to do to spawn this item at `origin`: launch
    /// it, clear its thinking and raise the respawn event that scales it up.
    pub fn spawn_intern(&self, origin: (i32, i32, i32)) -> (r: ItemSpawn)
        ensures
            r == (ItemSpawn {
                origin,
                next_think: 0,
                clear_think: true,
                event: entity_event_t::EV_ITEM_RESPAWN,
                event_param: 0,
            }),
    {
        ItemSpawn { origin, next_think: 0, clear_think: true, event: entity_event_t::EV_ITEM_RESPAWN, event_param: 0 }
    }
}

} // verus!
