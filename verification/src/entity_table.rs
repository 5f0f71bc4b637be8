//! The functions of the scripting interface that walk the engine's entity
//! table. The caller hands in the table as the engine holds it: entry `i` is
//! the game entity with id `i`, `None` where the engine has none there; ids
//! from `MAX_GENTITIES` on are never read.
use vstd::prelude::*;

use crate::game_client::{c_string_bytes, c_string_prefix, decode_utf8_lossy, utf8_lossy_decoding, GClient, GameClient, PlayerState};
use crate::game_entity::GameEntity;
use crate::python_api::PythonError;
use crate::quake_types::{entity_type_number, entityType_t, itemType_t, EF_KAMIKAZE, FL_DROPPED_ITEM, MAX_GENTITIES};
use crate::text::nat_decimal;

verus! {

/// The number of entries of the table that the engine can hand out.
pub open spec fn table_size(entities: Seq<Option<GameEntity>>) -> int {
    if entities.len() < MAX_GENTITIES {
        entities.len() as int
    } else {
        MAX_GENTITIES as int
    }
}

/// The number of entries of the table that the engine can hand out.
pub(crate) fn table_len(entities: &Vec<Option<GameEntity>>) -> (r: usize)
    ensures
        r == table_size(entities@),
{
    if entities.len() < MAX_GENTITIES as usize {
        entities.len()
    } else {
        MAX_GENTITIES as usize
    }
}

/// The ids in `from..upto`, ascending, of the entities of the table that
/// satisfy `selected`.
pub open spec fn ids_where(
    entities: Seq<Option<GameEntity>>,
    from: int,
    upto: int,
    selected: spec_fn(GameEntity) -> bool,
) -> Seq<u32>
    decreases upto - from,
{
    if upto <= from {
        Seq::empty()
    } else {
        let before = ids_where(entities, from, upto - 1, selected);
        match entities[upto - 1] {
            Some(e) => if selected(e) {
                before.push((upto - 1) as u32)
            } else {
                before
            },
            None => before,
        }
    }
}

/// The text of a C string buffer, decoded as UTF-8 with invalid sequences replaced.
pub open spec fn c_text(buffer: Seq<u8>) -> Seq<char> {
    utf8_lossy_decoding(c_string_bytes(buffer))
}

/// The text of a C string buffer, decoded as UTF-8 with invalid sequences replaced.
pub(crate) fn c_string_text(buffer: &Vec<u8>) -> (r: String)
    ensures
        r@ == c_text(buffer@),
        vstd::utf8::valid_utf8(c_string_bytes(buffer@)) ==> r@ == vstd::utf8::decode_utf8(c_string_bytes(buffer@)),
{
    let bytes = c_string_prefix(buffer.as_slice());
    decode_utf8_lossy(bytes.as_slice())
}

/// An item that a player dropped, still in use.
pub open spec fn dropped_item(e: GameEntity) -> bool {
    e.gentity_t.inuse && e.gentity_t.flags != 0 && e.gentity_t.flags & FL_DROPPED_ITEM != 0
}

/// The filter of `remove_dropped_items`.
pub open spec fn dropped_item_filter() -> spec_fn(GameEntity) -> bool {
    |e: GameEntity| dropped_item(e)
}

/// The entities to free to remove all dropped items: the ids of the entities
/// in use that are items a player dropped.
pub fn remove_dropped_items(entities: &Vec<Option<GameEntity>>) -> (r: Vec<u32>)
    ensures
        r@ == ids_where(entities@, 0, table_size(entities@), dropped_item_filter()),
        // Exactly the entities in use that carry the dropped-item flag are freed.
        forall|k: int|
            0 <= k < r@.len() ==> {
                let id = #[trigger] r@[k] as int;
                &&& 0 <= id < entities@.len()
                &&& id < MAX_GENTITIES
                &&& entities@[id] is Some
                &&& entities@[id]->0.gentity_t.inuse
                &&& entities@[id]->0.gentity_t.flags & FL_DROPPED_ITEM != 0
            },
        forall|j: int|
            0 <= j < entities@.len() && j < MAX_GENTITIES && #[trigger] entities@[j] is Some
                && entities@[j]->0.gentity_t.inuse && entities@[j]->0.gentity_t.flags & FL_DROPPED_ITEM != 0
                ==> r@.contains(j as u32),
{
    let size = table_len(entities);
    let mut ids: Vec<u32> = Vec::new();
    let mut i: usize = 0;
    while i < size
        invariant
            i <= size,
            size == table_size(entities@),
            ids@ == ids_where(entities@, 0, i as int, dropped_item_filter()),
        decreases size - i,
    {
        match &entities[i] {
            Some(e) => {
                if e.in_use() && e.has_flags() && e.is_dropped_item() {
                    ids.push(i as u32);
                }
            },
            None => {},
        }
        i = i + 1;
    }
    proof {
        law_listed_ids_are_selected(entities@, 0, size as int, dropped_item_filter());
        law_selected_ids_are_listed(entities@, 0, size as int, dropped_item_filter());
        assert forall|j: int|
            0 <= j < entities@.len() && j < MAX_GENTITIES && #[trigger] entities@[j] is Some
                && entities@[j]->0.gentity_t.inuse && entities@[j]->0.gentity_t.flags & FL_DROPPED_ITEM != 0
                implies (dropped_item_filter())(entities@[j]->0) by {
            let flags = entities@[j]->0.gentity_t.flags;
            assert(flags != 0) by (bit_vector)
                requires flags & 0x1000i32 != 0;
        }
    }
    ids
}

/// A weapon lying in the map, in use.
pub open spec fn respawning_weapon(e: GameEntity) -> bool {
    &&& e.gentity_t.inuse
    &&& e.gentity_t.s.eType == entity_type_number(entityType_t::ET_ITEM)
    &&& e.gentity_t.item is Some
    &&& e.gentity_t.item->0.giType == itemType_t::IT_WEAPON
}

/// The filter of `force_weapon_respawn_time`.
pub open spec fn respawning_weapon_filter() -> spec_fn(GameEntity) -> bool {
    |e: GameEntity| respawning_weapon(e)
}

/// The entities whose respawn time is set to `respawn_time` seconds: the
/// ids of the weapons in use lying in the map. A negative time is refused.
pub fn force_weapon_respawn_time(respawn_time: i32, entities: &Vec<Option<GameEntity>>) -> (r: Result<
    Vec<u32>,
    PythonError,
>)
    ensures
        respawn_time < 0 ==> (r matches Err(PythonError::ValueError(m)) && m@
            == "respawn time needs to be an integer 0 or greater"@),
        respawn_time >= 0 ==> (r matches Ok(ids) && ids@ == ids_where(
            entities@,
            0,
            table_size(entities@),
            respawning_weapon_filter(),
        )),
        // Only weapons in use lying in the map are picked: never an entity
        // whose item is no weapon.
        r matches Ok(ids) ==> forall|k: int|
            0 <= k < ids@.len() ==> {
                let id = #[trigger] ids@[k] as int;
                &&& 0 <= id < entities@.len()
                &&& id < MAX_GENTITIES
                &&& entities@[id] is Some
                &&& entities@[id]->0.gentity_t.inuse
                &&& entities@[id]->0.gentity_t.s.eType == entity_type_number(entityType_t::ET_ITEM)
                &&& entities@[id]->0.gentity_t.item is Some
                &&& entities@[id]->0.gentity_t.item->0.giType == itemType_t::IT_WEAPON
            },
        // And every such weapon is picked.
        r matches Ok(ids) ==> forall|j: int|
            0 <= j < entities@.len() && j < MAX_GENTITIES && #[trigger] entities@[j] is Some
                && entities@[j]->0.gentity_t.inuse && entities@[j]->0.gentity_t.s.eType == entity_type_number(
                entityType_t::ET_ITEM,
            ) && entities@[j]->0.gentity_t.item is Some && entities@[j]->0.gentity_t.item->0.giType
                == itemType_t::IT_WEAPON ==> ids@.contains(j as u32),
{
    if respawn_time < 0 {
        return Err(PythonError::ValueError(String::from_str("respawn time needs to be an integer 0 or greater")));
    }
    let size = table_len(entities);
    let mut ids: Vec<u32> = Vec::new();
    let mut i: usize = 0;
    while i < size
        invariant
            i <= size,
            size == table_size(entities@),
            ids@ == ids_where(entities@, 0, i as int, respawning_weapon_filter()),
        decreases size - i,
    {
        match &entities[i] {
            Some(e) => {
                if e.in_use() && e.is_respawning_weapon() {
                    ids.push(i as u32);
                }
            },
            None => {},
        }
        i = i + 1;
    }
    proof {
        law_listed_ids_are_selected(entities@, 0, size as int, respawning_weapon_filter());
        law_selected_ids_are_listed(entities@, 0, size as int, respawning_weapon_filter());
    }
    Ok(ids)
}

/// The timer of a kamikaze explosion, in use.
pub open spec fn kamikaze_timer(e: GameEntity) -> bool {
    e.gentity_t.inuse && c_text(e.gentity_t.classname@) == "kamikaze timer"@
}

/// The filter of the timers that `destroy_kamikaze_timers` frees.
pub open spec fn kamikaze_timer_filter() -> spec_fn(GameEntity) -> bool {
    |e: GameEntity| kamikaze_timer(e)
}

/// Whether `destroy_kamikaze_timers` clears the kamikaze bit of the entity's
/// player: a dead entity in use with a player.
pub open spec fn kamikaze_flag_cleared(e: GameEntity) -> bool {
    e.gentity_t.inuse && e.gentity_t.health <= 0 && e.gentity_t.client is Some
}

/// The entity with the kamikaze bit of its player cleared.
pub open spec fn without_kamikaze_flag(e: GameEntity) -> GameEntity {
    let c = e.gentity_t.client->0;
    GameEntity {
        gentity_t: crate::game_entity::GEntity {
            client: Some(GClient { ps: PlayerState { eFlags: c.ps.eFlags & !EF_KAMIKAZE, ..c.ps }, ..c }),
            ..e.gentity_t
        },
        ..e
    }
}

/// Removes all current kamikaze timers: the players of the dead entities in
/// use lose the kamikaze bit, and the ids of the timers in use come back, to
/// be freed.
pub fn destroy_kamikaze_timers(entities: &mut Vec<Option<GameEntity>>) -> (r: Vec<u32>)
    ensures
        final(entities)@.len() == old(entities)@.len(),
        forall|i: int|
            0 <= i < old(entities)@.len() ==> #[trigger] final(entities)@[i] == match old(entities)@[i] {
                Some(e) => if i < table_size(old(entities)@) && kamikaze_flag_cleared(e) {
                    Some(without_kamikaze_flag(e))
                } else {
                    Some(e)
                },
                None => None::<GameEntity>,
            },
        r@ == ids_where(old(entities)@, 0, table_size(old(entities)@), kamikaze_timer_filter()),
        // Exactly the kamikaze timers in use are handed back.
        forall|k: int|
            0 <= k < r@.len() ==> {
                let id = #[trigger] r@[k] as int;
                &&& 0 <= id < old(entities)@.len()
                &&& id < MAX_GENTITIES
                &&& old(entities)@[id] is Some
                &&& old(entities)@[id]->0.gentity_t.inuse
                &&& c_text(old(entities)@[id]->0.gentity_t.classname@) == "kamikaze timer"@
            },
        forall|j: int|
            0 <= j < old(entities)@.len() && j < MAX_GENTITIES && #[trigger] old(entities)@[j] is Some
                && old(entities)@[j]->0.gentity_t.inuse && c_text(old(entities)@[j]->0.gentity_t.classname@)
                == "kamikaze timer"@ ==> r@.contains(j as u32),
{
    let ghost before = entities@;
    let size = table_len(entities);
    let mut ids: Vec<u32> = Vec::new();
    let mut i: usize = 0;
    while i < size
        invariant
            i <= size,
            size == table_size(before),
            entities@.len() == before.len(),
            ids@ == ids_where(before, 0, i as int, kamikaze_timer_filter()),
            forall|j: int| i <= j < before.len() ==> #[trigger] entities@[j] == before[j],
            forall|j: int|
                0 <= j < i ==> #[trigger] entities@[j] == match before[j] {
                    Some(e) => if kamikaze_flag_cleared(e) {
                        Some(without_kamikaze_flag(e))
                    } else {
                        Some(e)
                    },
                    None => None::<GameEntity>,
                },
        decreases size - i,
    {
        let slot = entities.remove(i);
        let updated = match slot {
            Some(e) => {
                if e.in_use() && e.is_kamikaze_timer() {
                    ids.push(i as u32);
                }
                Some(clear_kamikaze_flag_if_dead(e))
            },
            None => None,
        };
        entities.insert(i, updated);
        i = i + 1;
    }
    proof {
        law_listed_ids_are_selected(before, 0, size as int, kamikaze_timer_filter());
        law_selected_ids_are_listed(before, 0, size as int, kamikaze_timer_filter());
    }
    ids
}

/// The entity with the kamikaze bit of its player cleared where it is dead
/// and in use.
fn clear_kamikaze_flag_if_dead(e: GameEntity) -> (r: GameEntity)
    ensures
        r == if kamikaze_flag_cleared(e) {
            without_kamikaze_flag(e)
        } else {
            e
        },
{
    if !e.in_use() || e.get_health() > 0 {
        return e;
    }
    match e.gentity_t.client {
        None => e,
        Some(client) => {
            let mut game_client = GameClient { game_client: client };
            game_client.remove_kamikaze_flag();
            let mut updated = e;
            updated.gentity_t.client = Some(game_client.game_client);
            updated
        },
    }
}

/// Whether the entity's target is `name`.
pub open spec fn targets_name(e: GameEntity, name: Seq<char>) -> bool {
    e.gentity_t.target is Some && c_text(e.gentity_t.target->0@) == name
}

/// The filter of the entities whose target is `name`.
pub open spec fn targets_filter(name: Seq<char>) -> spec_fn(GameEntity) -> bool {
    |e: GameEntity| targets_name(e, name)
}

/// The ids of the entities that target the entity `e`: none where it has no
/// target name; otherwise those from id 1 on whose target is its target name.
pub open spec fn targetting_ids(e: GameEntity, entities: Seq<Option<GameEntity>>) -> Seq<u32> {
    match e.gentity_t.targetname {
        None => Seq::empty(),
        Some(name) => ids_where(entities, 1, table_size(entities), targets_filter(c_text(name@))),
    }
}

impl GameEntity {
    /// The ids of the entities of the table that target this entity.
    pub fn get_targetting_entity_ids(&self, entities: &Vec<Option<GameEntity>>) -> (r: Vec<u32>)
        ensures
            r@ == targetting_ids(*self, entities@),
    {
        let my_targetname = match &self.gentity_t.targetname {
            None => return Vec::new(),
            Some(name) => c_string_text(name),
        };
        let size = table_len(entities);
        let mut ids: Vec<u32> = Vec::new();
        if size == 0 {
            return ids;
        }
        let mut i: usize = 1;
        while i < size
            invariant
                1 <= i <= size,
                size == table_size(entities@),
                ids@ == ids_where(entities@, 1, i as int, targets_filter(my_targetname@)),
            decreases size - i,
        {
            match &entities[i] {
                Some(other) => match &other.gentity_t.target {
                    Some(target) => {
                        if c_string_text(target) == my_targetname {
                            ids.push(i as u32);
                        }
                    },
                    None => {},
                },
                None => {},
            }
            i = i + 1;
        }
        ids
    }
}

/// The ids of the entities that target the entity `entity_id`: an id outside
/// the table is refused; none where the engine has no entity there.
pub fn get_entity_targets(entity_id: i32, entities: &Vec<Option<GameEntity>>) -> (r: Result<Vec<u32>, PythonError>)
    ensures
        !(0 <= entity_id < MAX_GENTITIES) ==> (r matches Err(PythonError::ValueError(m)) && m@
            == "entity_id need to be between 0 and 1023."@),
        0 <= entity_id < MAX_GENTITIES ==> (r matches Ok(ids) && ids@ == if entity_id < entities@.len()
            && entities@[entity_id as int] is Some {
            targetting_ids(entities@[entity_id as int]->0, entities@)
        } else {
            Seq::empty()
        }),
{
    if entity_id < 0 || entity_id >= MAX_GENTITIES as i32 {
        return Err(PythonError::ValueError(String::from_str("entity_id need to be between 0 and 1023.")));
    }
    let index = entity_id as usize;
    if index >= entities.len() {
        return Ok(Vec::new());
    }
    match &entities[index] {
        None => Ok(Vec::new()),
        Some(entity) => Ok(entity.get_targetting_entity_ids(entities)),
    }
}

/// The ids that `ids_where` lists are ascending, lie in the searched range,
/// and name entities of the table that the filter selects.
pub proof fn law_listed_ids_are_selected(
    entities: Seq<Option<GameEntity>>,
    from: int,
    upto: int,
    selected: spec_fn(GameEntity) -> bool,
)
    requires
        0 <= from,
        upto <= entities.len(),
        upto <= u32::MAX,
    ensures
        forall|k: int|
            0 <= k < ids_where(entities, from, upto, selected).len() ==> {
                let id = #[trigger] ids_where(entities, from, upto, selected)[k] as int;
                &&& from <= id < upto
                &&& entities[id] is Some
                &&& selected(entities[id]->0)
            },
        forall|j: int, k: int|
            0 <= j < k < ids_where(entities, from, upto, selected).len() ==> ids_where(entities, from, upto, selected)[j]
                < ids_where(entities, from, upto, selected)[k],
    decreases upto - from,
{
    if upto > from {
        law_listed_ids_are_selected(entities, from, upto - 1, selected);
        let before = ids_where(entities, from, upto - 1, selected);
        let ids = ids_where(entities, from, upto, selected);
        assert(((upto - 1) as u32) as int == upto - 1);
        assert forall|k: int| 0 <= k < ids.len() implies {
            let id = #[trigger] ids[k] as int;
            &&& from <= id < upto
            &&& entities[id] is Some
            &&& selected(entities[id]->0)
        } by {
            if k < before.len() {
                assert(ids[k] == before[k]);
            }
        }
        assert forall|j: int, k: int| 0 <= j < k < ids.len() implies ids[j] < ids[k] by {
            if k < before.len() {
                assert(ids[j] == before[j] && ids[k] == before[k]);
            } else {
                assert(ids[j] == before[j]);
            }
        }
    }
}

/// Clearing the kamikaze bit twice is clearing it once: a second removal of
/// the kamikaze timers changes no player any more.
pub proof fn law_kamikaze_flag_clearing_is_idempotent(e: GameEntity)
    requires
        e.gentity_t.client is Some,
    ensures
        without_kamikaze_flag(without_kamikaze_flag(e)) == without_kamikaze_flag(e),
{
    let flags = e.gentity_t.client->0.ps.eFlags;
    assert((flags & !0x200i32) & !0x200i32 == flags & !0x200i32) by (bit_vector);
}

/// Every entity of the searched range that the filter selects is listed by
/// `ids_where`.
pub proof fn law_selected_ids_are_listed(
    entities: Seq<Option<GameEntity>>,
    from: int,
    upto: int,
    selected: spec_fn(GameEntity) -> bool,
)
    requires
        0 <= from,
        upto <= entities.len(),
        upto <= u32::MAX,
    ensures
        forall|j: int|
            from <= j < upto && #[trigger] entities[j] is Some && selected(entities[j]->0) ==> ids_where(
                entities,
                from,
                upto,
                selected,
            ).contains(j as u32),
    decreases upto - from,
{
    if upto > from {
        law_selected_ids_are_listed(entities, from, upto - 1, selected);
        let before = ids_where(entities, from, upto - 1, selected);
        let ids = ids_where(entities, from, upto, selected);
        assert forall|j: int|
            from <= j < upto && #[trigger] entities[j] is Some && selected(entities[j]->0) implies ids.contains(
            j as u32,
        ) by {
            if j < upto - 1 {
                let k = choose|k: int| 0 <= k < before.len() && before[k] == j as u32;
                if entities[upto - 1] is Some && selected(entities[upto - 1]->0) {
                    assert(ids[k] == before[k]);
                }
            } else {
                assert(ids[ids.len() - 1] == (upto - 1) as u32);
            }
        }
    }
}

/// Forcing the weapons' respawn time picks exactly the weapons in use lying
/// in the map: an entity of the table is picked if and only if it is in use,
/// lies in the map as an item, and its item is a weapon.
pub proof fn law_forced_respawn_picks_exactly_weapons(entities: Seq<Option<GameEntity>>, j: int)
    requires
        0 <= j < table_size(entities),
    ensures
        ids_where(entities, 0, table_size(entities), respawning_weapon_filter()).contains(j as u32) <==> (
        entities[j] is Some && entities[j]->0.gentity_t.inuse && entities[j]->0.gentity_t.s.eType
            == entity_type_number(entityType_t::ET_ITEM) && entities[j]->0.gentity_t.item is Some
            && entities[j]->0.gentity_t.item->0.giType == itemType_t::IT_WEAPON),
{
    let n = table_size(entities);
    law_listed_ids_are_selected(entities, 0, n, respawning_weapon_filter());
    law_selected_ids_are_listed(entities, 0, n, respawning_weapon_filter());
    let ids = ids_where(entities, 0, n, respawning_weapon_filter());
    if ids.contains(j as u32) {
        let k = choose|k: int| 0 <= k < ids.len() && ids[k] == j as u32;
        assert(ids[k] as int == j);
    }
}

} // verus!
