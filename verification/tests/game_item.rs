use shinqlx::engine_error::QuakeLiveEngineError;
use shinqlx::game_item::{GItem, GameItem, ItemSpawn};
use shinqlx::quake_types::{entity_event_t, itemType_t};

fn default_gitem() -> GItem {
    GItem { classname: None, giType: itemType_t::IT_BAD, giTag: 0, quantity: 0 }
}

fn named_gitem(name: &str) -> GItem {
    let mut bytes = name.as_bytes().to_vec();
    bytes.push(0);
    GItem { classname: Some(bytes), giType: itemType_t::IT_BAD, giTag: 0, quantity: 0 }
}

#[test]
fn game_item_from_null_pointer() {
    assert_eq!(
        GameItem::try_from(None, 0),
        Err(QuakeLiveEngineError::NullPointerPassed("null pointer passed".into()))
    );
}

#[test]
fn game_item_from_valid_item() {
    let game_item = GameItem::try_from(Some(default_gitem()), 0);
    assert!(game_item.is_ok());
}

#[test]
fn game_item_try_get_from_negative_item_id() {
    assert_eq!(GameItem::from_item_id(None, -1), Err(QuakeLiveEngineError::InvalidId(-1)));
}

#[test]
fn game_item_try_get_with_no_items_available() {
    assert_eq!(GameItem::from_item_id(None, 42), Err(QuakeLiveEngineError::InvalidId(42)));
}

#[test]
fn get_num_items_from_non_existing_item_list() {
    assert_eq!(GameItem::get_num_items(None), 0);
}

#[test]
fn get_num_items_counts_up_to_the_last_named_item() {
    let items = vec![default_gitem(), named_gitem("weapon_shotgun"), named_gitem("ammo_shells"), default_gitem()];
    assert_eq!(GameItem::get_num_items(Some(&items)), 3);
}

#[test]
fn game_item_from_item_id_gives_the_item_of_the_list() {
    let items = vec![default_gitem(), named_gitem("weapon_shotgun"), named_gitem("ammo_shells")];
    let game_item = GameItem::from_item_id(Some(&items), 2).unwrap();
    assert_eq!(game_item.get_classname(), "ammo_shells");
    assert_eq!(game_item.get_item_id(Some(0)), 2);
    assert_eq!(GameItem::from_item_id(Some(&items), 3), Err(QuakeLiveEngineError::InvalidId(3)));
}

#[test]
fn game_item_get_item_id_with_no_itemlist() {
    let game_item = GameItem::try_from(Some(default_gitem()), 0).unwrap();
    assert_eq!(game_item.get_item_id(None), -1);
}

#[test]
fn game_item_get_item_id_internal_gets_offset() {
    let game_item = GameItem::try_from(Some(default_gitem()), 1001).unwrap();
    assert_eq!(game_item.get_item_id_intern(1000), 1);
}

#[test]
fn game_item_get_classname() {
    let game_item = GameItem::try_from(Some(named_gitem("item classname")), 0).unwrap();
    assert_eq!(game_item.get_classname(), "item classname")
}

#[test]
fn game_item_spawn() {
    let game_item = GameItem::try_from(Some(default_gitem()), 0).unwrap();
    assert_eq!(
        game_item.spawn_intern((1, 2, 3)),
        ItemSpawn {
            origin: (1, 2, 3),
            next_think: 0,
            clear_think: true,
            event: entity_event_t::EV_ITEM_RESPAWN,
            event_param: 0,
        }
    );
    assert_eq!(game_item.spawn((1, 2, 3), false), None);
}
