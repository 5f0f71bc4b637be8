//! The functions of the scripting interface on the game's items: finding an
//! item by id or by class name, spawning one, and replacing the items that
//! lie in the map. The caller hands in the engine's item list (`None` where
//! it has none) and its entity table (see `entity_table`).
use vstd::prelude::*;

use crate::entity_table::{c_string_text, c_text, ids_where, table_len, table_size};
use crate::game_entity::{EntityState, GEntity, GameEntity};
use crate::game_item::{copy_item, item_at, last_named_item, list_view, num_items, same_item, GItem, GameItem, ItemSpawn};
use crate::python_api::PythonError;
use crate::quake_types::{entity_type_number, entityType_t, entity_event_t, MAX_GENTITIES};
use crate::text::{append_decimal, int_decimal, nat_decimal, nat_to_decimal};
use vstd::string::StringSliceAdditionalSpecFns;
use vstd::utf8::encode_utf8;

verus! {

/// An item or entity as a script names it: by number, by class name, or by
/// a value of any other type.
#[derive(Debug)]
pub enum PyItem {
    Id(i32),
    Classname(String),
    Other,
}

/// Whether every item of the list from id 1 below the number of items has a
/// class name (the engine's list has no gaps).
pub open spec fn items_named(item_list: Option<Seq<GItem>>) -> bool {
    match item_list {
        None => true,
        Some(items) => forall|i: int|
            1 <= i < num_items(item_list) ==> i < items.len() && (#[trigger] items[i]).classname is Some,
    }
}

/// The first id in `from..upto` whose item has the class name `name`.
pub open spec fn first_item_named(items: Seq<GItem>, name: Seq<char>, from: int, upto: int) -> Option<int>
    decreases upto - from,
{
    if from >= upto {
        None
    } else if items[from].classname is Some && c_text(items[from].classname->0@) == name {
        Some(from)
    } else {
        first_item_named(items, name, from + 1, upto)
    }
}

/// The item id that a script names by `item`, or the message of the value
/// error raised: a number must be an id of the list; a class name is looked
/// up among the items from id 1 on.
pub open spec fn determined_item_id(item: PyItem, item_list: Option<Seq<GItem>>) -> Result<i32, Seq<char>> {
    let count = num_items(item_list);
    match item {
        PyItem::Id(id) => if id < 0 || id >= count {
            Err("item_id needs to be between 0 and "@ + int_decimal(count - 1) + "."@)
        } else {
            Ok(id)
        },
        PyItem::Classname(name) => match item_list {
            Some(items) => match first_item_named(items, name@, 1, count) {
                Some(i) => Ok(i as i32),
                None => Err("invalid item classname: "@ + name@),
            },
            None => Err("invalid item classname: "@ + name@),
        },
        PyItem::Other => Err("item needs to be type of int or string."@),
    }
}

/// The highest named item lies in the list.
proof fn lemma_last_named_in_list(items: Seq<GItem>, upto: int)
    ensures
        last_named_item(items, upto) == 0 || (0 < last_named_item(items, upto) < items.len()),
        0 <= last_named_item(items, upto),
    decreases upto,
{
    if upto > 0 && !(upto < items.len() && items[upto].classname is Some) {
        lemma_last_named_in_list(items, upto - 1);
    }
}

/// The item id that a script names by `item`.
pub fn determine_item_id(item: &PyItem, item_list: Option<&Vec<GItem>>) -> (r: Result<i32, PythonError>)
    requires
        items_named(list_view(item_list)),
    ensures
        match determined_item_id(*item, list_view(item_list)) {
            Ok(id) => r == Ok::<i32, PythonError>(id),
            Err(m) => r matches Err(PythonError::ValueError(msg)) && msg@ == m,
        },
{
    let count = GameItem::get_num_items(item_list);
    proof {
        if let Some(items) = item_list {
            lemma_last_named_in_list(items@, 4096);
        }
    }
    match item {
        PyItem::Id(id) => {
            if *id < 0 || *id >= count {
                let mut msg = String::from_str("item_id needs to be between 0 and ");
                append_decimal(&mut msg, count as i64 - 1);
                msg.append(".");
                return Err(PythonError::ValueError(msg));
            }
            Ok(*id)
        },
        PyItem::Classname(name) => {
            let mut msg = String::from_str("invalid item classname: ");
            msg.append(name.as_str());
            match item_list {
                None => Err(PythonError::ValueError(msg)),
                Some(items) => {
                    let mut i: i32 = 1;
                    while i < count
                        invariant
                            *item == PyItem::Classname(*name),
                            list_view(item_list) == Some(items@),
                            1 <= i,
                            count == num_items(Some(items@)),
                            0 < count <= 4097,
                            items_named(Some(items@)),
                            first_item_named(items@, name@, i as int, count as int) == first_item_named(
                                items@,
                                name@,
                                1,
                                count as int,
                            ),
                        decreases count - i,
                    {
                        let candidate = &items[i as usize];
                        match &candidate.classname {
                            Some(classname) => {
                                if c_string_text(classname) == *name {
                                    assert(items@[i as int].classname->0@ == classname@);
                                    assert(first_item_named(items@, name@, i as int, count as int) == Some(i as int));
                                    return Ok(i);
                                }
                            },
                            None => {},
                        }
                        i = i + 1;
                    }
                    Err(PythonError::ValueError(msg))
                },
            }
        },
        PyItem::Other => Err(PythonError::ValueError(String::from_str("item needs to be type of int or string."))),
    }
}

/// Spawns the item `item_id` at (`x`, `y`, `z`): the id must name an item of
/// the list other than the first; what the engine is asked to do comes back
/// (nothing where no engine is loaded).
pub fn spawn_item(item_id: i32, x: i32, y: i32, z: i32, item_list: Option<&Vec<GItem>>, engine_loaded: bool) -> (r: Result<
    Option<ItemSpawn>,
    PythonError,
>)
    ensures
        !(1 <= item_id < num_items(list_view(item_list))) ==> (r matches Err(PythonError::ValueError(m)) && m@
            == "item_id needs to be a number from 1 to "@ + int_decimal(num_items(list_view(item_list)) - 1)
            + "."@),
        1 <= item_id < num_items(list_view(item_list)) ==> r == Ok::<Option<ItemSpawn>, PythonError>(
            if engine_loaded {
                Some(
                    ItemSpawn {
                        origin: (x, y, z),
                        next_think: 0,
                        clear_think: true,
                        event: entity_event_t::EV_ITEM_RESPAWN,
                        event_param: 0,
                    },
                )
            } else {
                None
            },
        ),
{
    let max_items = GameItem::get_num_items(item_list);
    proof {
        if let Some(items) = item_list {
            lemma_last_named_in_list(items@, 4096);
        }
    }
    if !(1 <= item_id && item_id < max_items) {
        let mut msg = String::from_str("item_id needs to be a number from 1 to ");
        append_decimal(&mut msg, max_items as i64 - 1);
        msg.append(".");
        return Err(PythonError::ValueError(msg));
    }
    match GameItem::from_item_id(item_list, item_id) {
        Ok(game_item) => Ok(game_item.spawn((x, y, z), engine_loaded)),
        Err(_) => {
            assert(false);
            Ok(None)
        },
    }
}

/// What replacing an entity's item asks of the engine: the entity's class
/// name printed to the console; then, for an item that exists, the
/// configstring to set (its index, and its value as the bytes of a C string
/// without the end) that makes the clients load the new item; or, for item 0,
/// the freeing of the entity.
#[derive(Debug, PartialEq, Eq)]
pub struct ItemReplacement {
    pub printed: String,
    pub configstring: Option<(u32, Vec<u8>)>,
    pub free: bool,
}

/// Whether the bytes of the items configstring can take the mark of item
/// `item_id`, where the replacement sets it: they reach the item's place, and
/// the byte there is a character of its own (an ASCII byte), so that it can
/// be replaced by another.
pub open spec fn replacement_fits(item_id: i32, item_list: Option<Seq<GItem>>, items_configstring: Seq<u8>) -> bool {
    item_id != 0 && item_at(item_list, item_id as int) is Some ==> item_id < items_configstring.len()
        && items_configstring[item_id as int] < 128
}

/// What replacing the item of `before` by item `item_id` does, with the
/// engine's item list and items configstring: the class name is printed;
/// item 0 frees the entity; an item that exists becomes the entity's item,
/// class name and model, and its place in the configstring is marked `1`,
/// the result set at the configstring index `item_id`; otherwise nothing changes.
pub open spec fn item_replaced(
    before: GameEntity,
    after: GameEntity,
    item_id: i32,
    item_list: Option<Seq<GItem>>,
    items_configstring: Seq<u8>,
    r: ItemReplacement,
) -> bool {
    &&& r.printed@ == c_text(before.gentity_t.classname@)
    &&& if item_id == 0 {
        r.free && r.configstring is None && after == before
    } else {
        match item_at(item_list, item_id as int) {
            None => !r.free && r.configstring is None && after == before,
            Some(item) => {
                &&& !r.free
                &&& r.configstring matches Some((index, value)) && index == item_id && value@
                    == items_configstring.update(item_id as int, 49u8)
                &&& after.address == before.address
                &&& after.gentity_t == (GEntity {
                    s: EntityState { modelindex: item_id, ..before.gentity_t.s },
                    classname: after.gentity_t.classname,
                    item: after.gentity_t.item,
                    ..before.gentity_t
                })
                &&& item.classname is Some && after.gentity_t.classname@ == item.classname->0@
                &&& after.gentity_t.item matches Some(new_item) && same_item(new_item, item)
            },
        }
    }
}

impl GameEntity {
    /// Replaces the entity's item by item `item_id` of the item list, with
    /// `items_configstring` the engine's items configstring; nothing where no
    /// engine is loaded.
    pub fn replace_item(
        &mut self,
        item_id: i32,
        item_list: Option<&Vec<GItem>>,
        items_configstring: &str,
        engine_loaded: bool,
    ) -> (r: Option<ItemReplacement>)
        requires
            items_named(list_view(item_list)),
            replacement_fits(item_id, list_view(item_list), items_configstring.spec_bytes()),
        ensures
            !engine_loaded ==> r is None && *final(self) == *old(self),
            engine_loaded ==> (r matches Some(rep) && item_replaced(
                *old(self),
                *final(self),
                item_id,
                list_view(item_list),
                items_configstring.spec_bytes(),
                rep,
            )),
    {
        if !engine_loaded {
            return None;
        }
        let printed = c_string_text(&self.gentity_t.classname);
        if item_id == 0 {
            return Some(ItemReplacement { printed, configstring: None, free: true });
        }
        let game_item = match GameItem::from_item_id(item_list, item_id) {
            Err(_) => return Some(ItemReplacement { printed, configstring: None, free: false }),
            Ok(g) => g,
        };
        let classname = match &game_item.gitem_t.classname {
            Some(name) => {
                let copied = name.clone();
                assert(copied@ =~= name@);
                copied
            },
            None => {
                assert(false);
                Vec::new()
            },
        };
        self.gentity_t.s.modelindex = item_id;
        self.gentity_t.classname = classname;
        self.gentity_t.item = Some(game_item.gitem_t);
        let index = item_id as usize;
        let mut marked = items_configstring.as_bytes_vec();
        marked.set(index, 49u8);
        Some(ItemReplacement { printed, configstring: Some((item_id as u32, marked)), free: false })
    }
}

/// The items in use lying in the map whose class name is `name`.
pub open spec fn named_item_filter(name: Seq<char>) -> spec_fn(GameEntity) -> bool {
    |e: GameEntity|
        e.gentity_t.inuse && e.gentity_t.s.eType == entity_type_number(entityType_t::ET_ITEM) && c_text(
            e.gentity_t.classname@,
        ) == name
}

/// The ids that `ids_where` gives lie in the range it searches, ascending.
pub proof fn lemma_ids_where_in_range(
    entities: Seq<Option<GameEntity>>,
    from: int,
    upto: int,
    selected: spec_fn(GameEntity) -> bool,
)
    requires
        0 <= from,
        upto <= u32::MAX,
    ensures
        forall|k: int|
            0 <= k < ids_where(entities, from, upto, selected).len() ==> from <= #[trigger] ids_where(
                entities,
                from,
                upto,
                selected,
            )[k] < upto,
    decreases upto - from,
{
    if upto > from {
        lemma_ids_where_in_range(entities, from, upto - 1, selected);
        let before = ids_where(entities, from, upto - 1, selected);
        let ids = ids_where(entities, from, upto, selected);
        assert(((upto - 1) as u32) as int == upto - 1);
        assert forall|k: int| 0 <= k < ids.len() implies from <= #[trigger] ids[k] < upto by {
            if k < before.len() {
                assert(ids[k] == before[k]);
            }
        }
    }
}

/// Whether the table is unchanged but at the entities that `touched` selects.
pub open spec fn unchanged_but(before: Seq<Option<GameEntity>>, after: Seq<Option<GameEntity>>, touched: spec_fn(int) -> bool) -> bool {
    &&& after.len() == before.len()
    &&& forall|j: int| 0 <= j < before.len() && !touched(j) ==> #[trigger] after[j] == before[j]
}

/// Whether each replacement of `reps` is the one of its entity.
pub open spec fn replacements_done(
    before: Seq<Option<GameEntity>>,
    after: Seq<Option<GameEntity>>,
    reps: Seq<(u32, ItemReplacement)>,
    item_id: i32,
    item_list: Option<Seq<GItem>>,
    items_configstring: Seq<u8>,
) -> bool {
    forall|k: int|
        0 <= k < reps.len() ==> {
            let id = (#[trigger] reps[k]).0 as int;
            &&& id < before.len()
            &&& before[id] is Some
            &&& after[id] is Some
            &&& item_replaced(before[id]->0, after[id]->0, item_id, item_list, items_configstring, reps[k].1)
        }
}

/// What `replace_items` does where the entity is named by its id `id` and the
/// new item is `item_id`: the id must lie in the table and name an item in
/// use lying in the map, whose item is replaced.
pub open spec fn replaced_by_id(
    before: Seq<Option<GameEntity>>,
    after: Seq<Option<GameEntity>>,
    id: i32,
    item_id: i32,
    item_list: Option<Seq<GItem>>,
    items_configstring: Seq<u8>,
    r: Result<(bool, Vec<(u32, ItemReplacement)>), PythonError>,
) -> bool {
    if !(0 <= id < MAX_GENTITIES) {
        r matches Err(PythonError::ValueError(m)) && m@ == "entity_id need to be between 0 and 1023."@ && after
            == before
    } else if !(id < before.len() && before[id as int] is Some) {
        r matches Err(PythonError::ValueError(m)) && m@ == "game entity does not exist"@ && after == before
    } else if !before[id as int]->0.gentity_t.inuse {
        r matches Err(PythonError::ValueError(m)) && m@ == "entity #"@ + int_decimal(id as int) + " is not in use."@
            && after == before
    } else if before[id as int]->0.gentity_t.s.eType != entity_type_number(entityType_t::ET_ITEM) {
        r matches Err(PythonError::ValueError(m)) && m@ == "entity #"@ + int_decimal(id as int)
            + " is not item. Cannot replace it"@ && after == before
    } else {
        &&& r matches Ok((true, reps)) && reps@.len() == 1 && reps@[0].0 == id
        &&& replacements_done(before, after, r->Ok_0.1@, item_id, item_list, items_configstring)
        &&& unchanged_but(before, after, |j: int| j == id)
    }
}

/// What `replace_items` does where the entities are named by the class name
/// `name`: all items in use lying in the map with that class name are
/// replaced, and whether there was any comes back.
pub open spec fn replaced_by_name(
    before: Seq<Option<GameEntity>>,
    after: Seq<Option<GameEntity>>,
    name: Seq<char>,
    item_id: i32,
    item_list: Option<Seq<GItem>>,
    items_configstring: Seq<u8>,
    r: Result<(bool, Vec<(u32, ItemReplacement)>), PythonError>,
) -> bool {
    let ids = ids_where(before, 0, table_size(before), named_item_filter(name));
    &&& r matches Ok((found, reps)) && found == (ids.len() > 0) && reps@.len() == ids.len() && (forall|k: int|
        0 <= k < ids.len() ==> (#[trigger] reps@[k]).0 == ids[k])
    &&& replacements_done(before, after, r->Ok_0.1@, item_id, item_list, items_configstring)
    &&& unchanged_but(
        before,
        after,
        |j: int| j < table_size(before) && before[j] is Some && (named_item_filter(name))(before[j]->0),
    )
}

/// Replaces the items that `item1` names (an entity id, or a class name of
/// the items lying in the map) by the item that `item2` names (see
/// `determine_item_id`; item 0 removes them). What each replacement asks of
/// the engine comes back with the entity's id.
pub fn replace_items(
    item1: &PyItem,
    item2: &PyItem,
    entities: &mut Vec<Option<GameEntity>>,
    item_list: Option<&Vec<GItem>>,
    items_configstring: &str,
) -> (r: Result<(bool, Vec<(u32, ItemReplacement)>), PythonError>)
    requires
        items_named(list_view(item_list)),
        determined_item_id(*item2, list_view(item_list)) matches Ok(id) ==> replacement_fits(
            id,
            list_view(item_list),
            items_configstring.spec_bytes(),
        ),
    ensures
        match determined_item_id(*item2, list_view(item_list)) {
            Err(m) => r matches Err(PythonError::ValueError(msg)) && msg@ == m && final(entities)@ == old(entities)@,
            Ok(item_id) => match *item1 {
                PyItem::Id(id) => replaced_by_id(
                    old(entities)@,
                    final(entities)@,
                    id,
                    item_id,
                    list_view(item_list),
                    items_configstring.spec_bytes(),
                    r,
                ),
                PyItem::Classname(name) => replaced_by_name(
                    old(entities)@,
                    final(entities)@,
                    name@,
                    item_id,
                    list_view(item_list),
                    items_configstring.spec_bytes(),
                    r,
                ),
                PyItem::Other => r matches Err(PythonError::ValueError(m)) && m@
                    == "entity needs to be type of int or string."@ && final(entities)@ == old(entities)@,
            },
        },
{
    let item2_id = match determine_item_id(item2, item_list) {
        Err(e) => return Err(e),
        Ok(id) => id,
    };
    match item1 {
        PyItem::Id(id) => {
            let id = *id;
            if id < 0 || id >= MAX_GENTITIES as i32 {
                return Err(PythonError::ValueError(String::from_str("entity_id need to be between 0 and 1023.")));
            }
            let index = id as usize;
            if index >= entities.len() || entities[index].is_none() {
                return Err(PythonError::ValueError(String::from_str("game entity does not exist")));
            }
            let ghost before = entities@;
            let slot = entities.remove(index);
            let mut entity = match slot {
                Some(e) => e,
                None => {
                    assert(false);
                    return Err(PythonError::ValueError(String::from_str("game entity does not exist")));
                },
            };
            if !entity.in_use() {
                entities.insert(index, Some(entity));
                assert(entities@ =~= before);
                let mut msg = String::from_str("entity #");
                append_decimal(&mut msg, id as i64);
                msg.append(" is not in use.");
                return Err(PythonError::ValueError(msg));
            }
            if !entity.is_game_item(entityType_t::ET_ITEM) {
                entities.insert(index, Some(entity));
                assert(entities@ =~= before);
                let mut msg = String::from_str("entity #");
                append_decimal(&mut msg, id as i64);
                msg.append(" is not item. Cannot replace it");
                return Err(PythonError::ValueError(msg));
            }
            let rep = entity.replace_item(item2_id, item_list, items_configstring, true);
            entities.insert(index, Some(entity));
            let rep = match rep {
                Some(rep) => rep,
                None => {
                    assert(false);
                    return Ok((true, Vec::new()));
                },
            };
            let mut reps: Vec<(u32, ItemReplacement)> = Vec::new();
            reps.push((index as u32, rep));
            Ok((true, reps))
        },
        PyItem::Classname(name) => {
            let ghost before = entities@;
            let ghost filter = named_item_filter(name@);
            let size = table_len(entities);
            let mut reps: Vec<(u32, ItemReplacement)> = Vec::new();
            let mut i: usize = 0;
            while i < size
                invariant
                    i <= size,
                    size == table_size(before),
                    size <= MAX_GENTITIES,
                    filter == named_item_filter(name@),
                    items_named(list_view(item_list)),
                    replacement_fits(item2_id, list_view(item_list), items_configstring.spec_bytes()),
                    entities@.len() == before.len(),
                    reps@.len() == ids_where(before, 0, i as int, filter).len(),
                    forall|k: int|
                        0 <= k < reps@.len() ==> (#[trigger] reps@[k]).0 == ids_where(before, 0, i as int, filter)[k],
                    forall|k: int| 0 <= k < reps@.len() ==> (#[trigger] reps@[k]).0 < i,
                    replacements_done(before, entities@, reps@, item2_id, list_view(item_list), items_configstring.spec_bytes()),
                    forall|j: int| i <= j < before.len() ==> #[trigger] entities@[j] == before[j],
                    forall|j: int|
                        0 <= j < i && !(before[j] is Some && filter(before[j]->0)) ==> #[trigger] entities@[j]
                            == before[j],
                decreases size - i,
            {
                proof {
                    lemma_ids_where_in_range(before, 0, i as int, filter);
                }
                let slot = entities.remove(i);
                match slot {
                    None => {
                        entities.insert(i, None);
                    },
                    Some(e) => {
                        let mut entity = e;
                        let selected = entity.in_use() && entity.is_game_item(entityType_t::ET_ITEM)
                            && c_string_text(&entity.gentity_t.classname) == *name;
                        if selected {
                            let rep = entity.replace_item(item2_id, item_list, items_configstring, true);
                            entities.insert(i, Some(entity));
                            match rep {
                                Some(rep) => reps.push((i as u32, rep)),
                                None => {
                                    assert(false);
                                },
                            }
                        } else {
                            entities.insert(i, Some(entity));
                        }
                    },
                }
                i = i + 1;
            }
            let found = reps.len() > 0;
            Ok((found, reps))
        },
        PyItem::Other => Err(PythonError::ValueError(String::from_str("entity needs to be type of int or string."))),
    }
}

/// The items in use lying in the map.
pub open spec fn item_in_map_filter() -> spec_fn(GameEntity) -> bool {
    |e: GameEntity| e.gentity_t.inuse && e.gentity_t.s.eType == entity_type_number(entityType_t::ET_ITEM)
}

/// The line that lists the entity `id` of the table: its id and class name.
pub open spec fn item_line(entities: Seq<Option<GameEntity>>, id: u32) -> Seq<char> {
    nat_decimal(id as nat) + " "@ + c_text(entities[id as int]->0.gentity_t.classname@)
}

/// The lines that list the items in use lying in the map, by ascending id.
pub open spec fn item_lines(entities: Seq<Option<GameEntity>>) -> Seq<Seq<char>> {
    ids_where(entities, 0, table_size(entities), item_in_map_filter()).map_values(|id: u32| item_line(entities, id))
}

/// How many of `lines`, from `i` on, still go into the message, with `total`
/// bytes before them: lines are taken while the bytes taken stay below 1024.
pub open spec fn printed_count(lines: Seq<Seq<char>>, i: int, total: int) -> int
    decreases lines.len() - i,
{
    if i < 0 || i >= lines.len() {
        i
    } else if total + encode_utf8(lines[i]).len() < 1024 {
        printed_count(lines, i + 1, total + encode_utf8(lines[i]).len())
    } else {
        i
    }
}

/// The lines joined, one newline between each two.
pub open spec fn joined(lines: Seq<Seq<char>>) -> Seq<char>
    decreases lines.len(),
{
    if lines.len() == 0 {
        Seq::empty()
    } else if lines.len() == 1 {
        lines[0]
    } else {
        joined(lines.drop_last()) + "\n"@ + lines.last()
    }
}

/// What listing the items asks of the engine: the server commands to send
/// to all clients, then the lines to print on the server console.
#[derive(Debug, PartialEq, Eq)]
pub struct ItemListing {
    pub server_commands: Vec<String>,
    pub console_lines: Vec<String>,
}

/// Whether `r` lists `lines`: the lines that fit in 1024 bytes go in one
/// print command; where none fits, a command tells that no items were found
/// and nothing more is listed; the other lines go to the server console,
/// after a command that tells the clients to look there.
pub open spec fn lists_lines(lines: Seq<Seq<char>>, r: ItemListing) -> bool {
    let n = printed_count(lines, 0, 0);
    if n == 0 {
        r.server_commands@.map_values(|c: String| c@) == seq!["print \"No items found in the map\n\""@]
            && r.console_lines@.len() == 0
    } else {
        let first = "print \""@ + joined(lines.take(n)) + "\n\""@;
        if n < lines.len() {
            &&& r.server_commands@.map_values(|c: String| c@) == seq![
                first,
                "print \"Check server console for other items\n\"\n"@,
            ]
            &&& r.console_lines@.map_values(|c: String| c@) == lines.skip(n)
        } else {
            r.server_commands@.map_values(|c: String| c@) == seq![first] && r.console_lines@.len() == 0
        }
    }
}

/// The lines that list the items in use lying in the map.
fn list_item_lines(entities: &Vec<Option<GameEntity>>) -> (r: Vec<String>)
    ensures
        r@.map_values(|l: String| l@) == item_lines(entities@),
{
    let ghost ids = ids_where(entities@, 0, table_size(entities@), item_in_map_filter());
    let size = table_len(entities);
    let mut lines: Vec<String> = Vec::new();
    let mut i: usize = 0;
    while i < size
        invariant
            i <= size,
            size == table_size(entities@),
            size <= MAX_GENTITIES,
            lines@.map_values(|l: String| l@) == ids_where(entities@, 0, i as int, item_in_map_filter()).map_values(
                |id: u32| item_line(entities@, id),
            ),
        decreases size - i,
    {
        let ghost before = lines@;
        match &entities[i] {
            Some(e) => {
                if e.in_use() && e.is_game_item(entityType_t::ET_ITEM) {
                    let mut line = nat_to_decimal(i as u64);
                    line.append(" ");
                    line.append(c_string_text(&e.gentity_t.classname).as_str());
                    lines.push(line);
                    assert(((i as u32) as nat) == i as nat);
                    assert(lines@.map_values(|l: String| l@) =~= before.map_values(|l: String| l@).push(
                        item_line(entities@, i as u32),
                    ));
                }
            },
            None => {},
        }
        i = i + 1;
    }
    lines
}

/// Lists the items in use lying in the map, by entity id and class name, for
/// the clients and the server console; an error where no engine is loaded.
pub fn dev_print_items(engine_loaded: bool, entities: &Vec<Option<GameEntity>>) -> (r: Result<
    ItemListing,
    PythonError,
>)
    ensures
        !engine_loaded ==> (r matches Err(PythonError::EnvironmentError(m)) && m@
            == "main quake live engine not set"@),
        engine_loaded ==> (r matches Ok(listing) && lists_lines(item_lines(entities@), listing)),
{
    let lines = list_item_lines(entities);
    let ghost views = lines@.map_values(|l: String| l@);
    let mut total: usize = 0;
    let mut n: usize = 0;
    while n < lines.len()
        invariant
            n <= lines.len(),
            views == lines@.map_values(|l: String| l@),
            total < 1024,
            printed_count(views, n as int, total as int) == printed_count(views, 0, 0),
        ensures
            n <= lines.len(),
            total < 1024,
            printed_count(views, n as int, total as int) == printed_count(views, 0, 0),
            n < lines.len() ==> total + encode_utf8(views[n as int]).len() >= 1024,
        decreases lines.len() - n,
    {
        let line = lines[n].as_str();
        let length = line.as_bytes().len();
        assert(views[n as int] == line@);
        assert(length as int == encode_utf8(views[n as int]).len());
        if length >= 1024 - total {
            break;
        }
        total = total + length;
        n = n + 1;
    }
    assert(printed_count(views, n as int, total as int) == n as int);
    if !engine_loaded {
        return Err(PythonError::EnvironmentError(String::from_str("main quake live engine not set")));
    }
    let mut server_commands: Vec<String> = Vec::new();
    let mut console_lines: Vec<String> = Vec::new();
    if n == 0 {
        server_commands.push(String::from_str("print \"No items found in the map\n\""));
        proof {
            assert(server_commands@.map_values(|c: String| c@) =~= seq!["print \"No items found in the map\n\""@]);
        }
        return Ok(ItemListing { server_commands, console_lines });
    }
    let mut text = String::from_str("print \"");
    let ghost prefix = "print \""@;
    let mut k: usize = 0;
    while k < n
        invariant
            k <= n <= lines.len(),
            views == lines@.map_values(|l: String| l@),
            text@ == prefix + joined(views.take(k as int)),
        decreases n - k,
    {
        if k > 0 {
            text.append("\n");
        }
        text.append(lines[k].as_str());
        proof {
            assert(views.take(k as int + 1).drop_last() =~= views.take(k as int));
            assert(views.take(k as int + 1).last() == lines@[k as int]@);
            if k == 0 {
                assert(views.take(1) =~= seq![views[0]]);
            }
        }
        k = k + 1;
    }
    text.append("\n\"");
    server_commands.push(text);
    if n < lines.len() {
        server_commands.push(String::from_str("print \"Check server console for other items\n\"\n"));
        let mut j: usize = n;
        while j < lines.len()
            invariant
                n <= j <= lines.len(),
                views == lines@.map_values(|l: String| l@),
                console_lines@.map_values(|c: String| c@) == views.subrange(n as int, j as int),
            decreases lines.len() - j,
        {
            console_lines.push(lines[j].clone());
            proof {
                assert(views.subrange(n as int, j as int + 1) =~= views.subrange(n as int, j as int).push(
                    views[j as int],
                ));
            }
            j = j + 1;
        }
    }
    proof {
        reveal_strlit("print \"");
        assert(server_commands@.map_values(|c: String| c@) =~= if n < lines.len() {
            seq![
                "print \""@ + joined(views.take(n as int)) + "\n\""@,
                "print \"Check server console for other items\n\"\n"@,
            ]
        } else {
            seq!["print \""@ + joined(views.take(n as int)) + "\n\""@]
        });
        assert(console_lines@.map_values(|c: String| c@) =~= if n < lines.len() {
            views.skip(n as int)
        } else {
            console_lines@.map_values(|c: String| c@)
        });
    }
    Ok(ItemListing { server_commands, console_lines })
}

/// Replacing the items named `name` by an item of the list installs that
/// item: every replaced entity then has the item's class name and model, and
/// the items configstring marks the item as loaded.
pub proof fn law_replacement_installs_item(
    before: Seq<Option<GameEntity>>,
    after: Seq<Option<GameEntity>>,
    name: Seq<char>,
    item_id: i32,
    item_list: Option<Seq<GItem>>,
    items_configstring: Seq<u8>,
    r: Result<(bool, Vec<(u32, ItemReplacement)>), PythonError>,
)
    requires
        item_id != 0,
        item_at(item_list, item_id as int) is Some,
        0 <= item_id < items_configstring.len(),
        replaced_by_name(before, after, name, item_id, item_list, items_configstring, r),
    ensures
        forall|k: int|
            0 <= k < r->Ok_0.1@.len() ==> {
                let id = (#[trigger] r->Ok_0.1@[k]).0 as int;
                &&& after[id] is Some
                &&& c_text(after[id]->0.gentity_t.classname@) == c_text(
                    item_at(item_list, item_id as int)->0.classname->0@,
                )
                &&& after[id]->0.gentity_t.s.modelindex == item_id
                &&& r->Ok_0.1@[k].1.configstring matches Some((index, value)) && index == item_id && value@[item_id as int]
                    == 49u8
            },
{
    let reps = r->Ok_0.1@;
    assert forall|k: int| 0 <= k < reps.len() implies {
        let id = (#[trigger] reps[k]).0 as int;
        &&& after[id] is Some
        &&& c_text(after[id]->0.gentity_t.classname@) == c_text(item_at(item_list, item_id as int)->0.classname->0@)
        &&& after[id]->0.gentity_t.s.modelindex == item_id
        &&& reps[k].1.configstring matches Some((index, value)) && index == item_id && value@[item_id as int] == 49u8
    } by {
        let id = reps[k].0 as int;
        assert(item_replaced(before[id]->0, after[id]->0, item_id, item_list, items_configstring, reps[k].1));
    }
}

/// The bytes of the lines from `i` below `n`.
pub open spec fn byte_total(lines: Seq<Seq<char>>, i: int, n: int) -> int
    decreases n - i,
{
    if i >= n {
        0
    } else {
        encode_utf8(lines[i]).len() + byte_total(lines, i + 1, n)
    }
}

/// The lines that the listing prints in its one message stay below 1024
/// bytes, and no further line would: from `i` on, with `total` bytes taken.
proof fn lemma_printed_lines_fit(lines: Seq<Seq<char>>, i: int, total: int)
    requires
        0 <= i <= lines.len(),
        0 <= total < 1024,
    ensures
        i <= printed_count(lines, i, total) <= lines.len(),
        total + byte_total(lines, i, printed_count(lines, i, total)) < 1024,
        printed_count(lines, i, total) < lines.len() ==> total + byte_total(
            lines,
            i,
            printed_count(lines, i, total) + 1,
        ) >= 1024,
    decreases lines.len() - i,
{
    let n = printed_count(lines, i, total);
    if i < lines.len() && total + encode_utf8(lines[i]).len() < 1024 {
        lemma_printed_lines_fit(lines, i + 1, total + encode_utf8(lines[i]).len());
    } else if i < lines.len() {
        assert(byte_total(lines, i + 1, i + 1) == 0);
    }
}

/// The item lines printed in one message hold fewer than 1024 bytes, and
/// every item line goes into that message or to the console: the message
/// takes as many lines as fit.
pub proof fn law_printed_lines_fit(lines: Seq<Seq<char>>)
    ensures
        printed_count(lines, 0, 0) <= lines.len(),
        byte_total(lines, 0, printed_count(lines, 0, 0)) < 1024,
        printed_count(lines, 0, 0) < lines.len() ==> byte_total(lines, 0, printed_count(lines, 0, 0) + 1) >= 1024,
{
    lemma_printed_lines_fit(lines, 0, 0);
}

} // verus!
