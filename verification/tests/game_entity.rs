use shinqlx::engine_error::QuakeLiveEngineError;
use shinqlx::game_client::{ClientPersistant, ClientSession, ExpandedStats, GClient, PlayerState};
use shinqlx::game_entity::{check_entity_id, EntityCommand, EntityShared, EntityState, GEntity, GameEntity, SelfDamage};
use shinqlx::game_item::GItem;
use shinqlx::quake_types::{
    clientConnected_t, entityType_t, itemType_t, meansOfDeath_t, pmtype_t, privileges_t, team_t, voteState_t,
    DAMAGE_NO_PROTECTION, FL_DROPPED_ITEM, FL_FORCE_GESTURE, STAT_ARMOR,
};

fn default_gclient() -> GClient {
    GClient {
        ps: PlayerState {
            clientNum: 0,
            pm_type: pmtype_t::PM_NORMAL,
            eFlags: 0,
            weapon: 0,
            stats: [0; 16],
            persistant: [0; 16],
            powerups: [0; 16],
            ammo: [0; 16],
            ping: 0,
        },
        pers: ClientPersistant {
            connected: clientConnected_t::CON_DISCONNECTED,
            netname: [0; 40],
            enterTime: 0,
            voteState: voteState_t::VOTE_NONE,
        },
        sess: ClientSession { sessionTeam: team_t::TEAM_FREE, privileges: privileges_t::PRIV_NONE },
        noclip: false,
        invulnerabilityTime: 0,
        expandedStats: ExpandedStats { numKills: 0, numDeaths: 0, totalDamageDealt: 0, totalDamageTaken: 0 },
    }
}

fn default_gentity() -> GEntity {
    GEntity {
        s: EntityState { eType: 0, clientNum: 0, modelindex: 0 },
        r: EntityShared { ownerNum: 0 },
        client: None,
        activator: None,
        health: 0,
        inuse: false,
        classname: vec![0],
        item: None,
        flags: 0,
        target: None,
        targetname: None,
    }
}

fn default_gitem() -> GItem {
    GItem { classname: None, giType: itemType_t::IT_BAD, giTag: 0, quantity: 0 }
}

fn entity_of(gentity: GEntity) -> GameEntity {
    GameEntity::try_from(Some(gentity), 0).unwrap()
}

fn c_string(text: &str) -> Vec<u8> {
    let mut bytes = text.as_bytes().to_vec();
    bytes.push(0);
    bytes
}

#[test]
fn game_entity_try_from_null_results_in_error() {
    assert_eq!(
        GameEntity::try_from(None, 0),
        Err(QuakeLiveEngineError::NullPointerPassed("null pointer passed".into()))
    );
}

#[test]
fn game_entity_try_from_valid_gentity() {
    assert_eq!(GameEntity::try_from(Some(default_gentity()), 0).is_ok(), true);
}

#[test]
fn game_entity_try_from_negative_entity_id() {
    assert_eq!(check_entity_id(-1, true), Err(QuakeLiveEngineError::InvalidId(-1)));
}

#[test]
fn game_entity_try_from_too_large_i32_entity_id() {
    assert_eq!(check_entity_id(65536, true), Err(QuakeLiveEngineError::InvalidId(65536)));
}

#[test]
fn game_entity_try_from_valid_i32_gentities_not_initialized() {
    assert_eq!(
        check_entity_id(42, false),
        Err(QuakeLiveEngineError::EntityNotFound("g_entities not initialized".into()))
    );
}

#[test]
fn game_entity_try_from_too_large_u32_entity_id() {
    assert_eq!(check_entity_id(65536u32 as i32, false), Err(QuakeLiveEngineError::InvalidId(65536)));
}

#[test]
fn game_entity_try_from_valid_u32_gentities_not_initialized() {
    assert_eq!(
        check_entity_id(42u32 as i32, false),
        Err(QuakeLiveEngineError::EntityNotFound("g_entities not initialized".into()))
    );
}

#[test]
fn game_entity_try_from_valid_id_with_entity_table() {
    assert_eq!(check_entity_id(42, true), Ok(42));
}

#[test]
fn game_entity_get_entity_with_no_entities_list() {
    let game_entity = entity_of(default_gentity());
    assert_eq!(game_entity.get_entity_id(None), -1);
}

#[test]
fn game_entity_get_entity_intern_gets_offset() {
    let game_entity = GameEntity::try_from(Some(default_gentity()), 103).unwrap();
    assert_eq!(game_entity.get_entity_id_inter(100), 3);
    assert_eq!(game_entity.get_entity_id(Some(100)), 3);
}

#[test]
fn game_entity_start_kamikaze() {
    let game_entity = entity_of(default_gentity());
    assert_eq!(game_entity.start_kamikaze_intern(), EntityCommand::StartKamikaze);
    assert_eq!(game_entity.start_kamikaze(true), Some(EntityCommand::StartKamikaze));
    assert_eq!(game_entity.start_kamikaze(false), None);
}

#[test]
fn game_entity_get_player_name_from_null_client() {
    let mut gentity = default_gentity();
    gentity.client = None;
    assert_eq!(entity_of(gentity).get_player_name(), "");
}

#[test]
fn game_entity_get_player_name_from_disconnected_game_client() {
    let mut gclient = default_gclient();
    gclient.pers.connected = clientConnected_t::CON_DISCONNECTED;
    let mut gentity = default_gentity();
    gentity.client = Some(gclient);
    assert_eq!(entity_of(gentity).get_player_name(), "");
}

#[test]
fn game_entity_get_player_name_from_connected_game_client() {
    let mut gclient = default_gclient();
    gclient.pers.connected = clientConnected_t::CON_CONNECTED;
    for (index, byte) in "UnknownPlayer".bytes().enumerate() {
        gclient.pers.netname[index] = byte;
    }
    let mut gentity = default_gentity();
    gentity.client = Some(gclient);
    assert_eq!(entity_of(gentity).get_player_name(), "UnknownPlayer");
}

#[test]
fn game_entity_get_team_from_null_client() {
    let mut gentity = default_gentity();
    gentity.client = None;
    assert_eq!(entity_of(gentity).get_team(), team_t::TEAM_SPECTATOR);
}

#[test]
fn game_entity_get_team_from_disconnected_game_client() {
    let mut gclient = default_gclient();
    gclient.pers.connected = clientConnected_t::CON_DISCONNECTED;
    let mut gentity = default_gentity();
    gentity.client = Some(gclient);
    assert_eq!(entity_of(gentity).get_team(), team_t::TEAM_SPECTATOR);
}

#[test]
fn game_entity_get_team_from_connected_game_client() {
    let mut gclient = default_gclient();
    gclient.pers.connected = clientConnected_t::CON_CONNECTED;
    gclient.sess.sessionTeam = team_t::TEAM_RED;
    let mut gentity = default_gentity();
    gentity.client = Some(gclient);
    assert_eq!(entity_of(gentity).get_team(), team_t::TEAM_RED);
}

#[test]
fn game_entity_get_privileges_from_null_client() {
    let mut gentity = default_gentity();
    gentity.client = None;
    assert_eq!(entity_of(gentity).get_privileges(), privileges_t::PRIV_BANNED);
}

#[test]
fn game_entity_get_privileges_from_connected_game_client() {
    let mut gclient = default_gclient();
    gclient.sess.privileges = privileges_t::PRIV_ROOT;
    let mut gentity = default_gentity();
    gentity.client = Some(gclient);
    assert_eq!(entity_of(gentity).get_privileges(), privileges_t::PRIV_ROOT);
}

#[test]
fn game_entity_get_game_client_when_none_is_set() {
    let mut gentity = default_gentity();
    gentity.client = None;
    assert_eq!(entity_of(gentity).get_game_client().is_err(), true);
}

#[test]
fn game_entity_get_game_client_with_valid_gclient() {
    let mut gentity = default_gentity();
    gentity.client = Some(default_gclient());
    assert_eq!(entity_of(gentity).get_game_client().is_ok(), true);
}

#[test]
fn game_entity_get_activator_when_none_is_set() {
    let mut gentity = default_gentity();
    gentity.activator = None;
    assert_eq!(entity_of(gentity).get_activator().is_err(), true);
}

#[test]
fn game_entity_get_activator_with_valid_activator() {
    let mut gentity = default_gentity();
    gentity.activator = Some(EntityShared { ownerNum: 7 });
    let activator = entity_of(gentity).get_activator();
    assert_eq!(activator.is_ok(), true);
    assert_eq!(activator.unwrap().get_owner_num(), 7);
}

#[test]
fn game_entity_set_health() {
    let mut gentity = default_gentity();
    gentity.client = Some(default_gclient());
    let mut game_entity = entity_of(gentity);
    game_entity.set_health(666);
    assert_eq!(game_entity.get_health(), 666);
}

#[test]
fn game_entity_slay_with_mod() {
    let mut gclient = default_gclient();
    gclient.ps.stats[STAT_ARMOR] = 69;
    let mut gentity = default_gentity();
    gentity.client = Some(gclient);
    gentity.health = 42;
    let mut game_entity = entity_of(gentity);
    let damage = game_entity.slay_with_mod_intern(meansOfDeath_t::MOD_CRUSH);
    assert_eq!(
        damage,
        SelfDamage { damage: 84, dflags: DAMAGE_NO_PROTECTION, means_of_death: meansOfDeath_t::MOD_CRUSH }
    );
    assert_eq!(game_entity.gentity_t.client.unwrap().ps.stats[STAT_ARMOR], 0);
}

#[test]
fn game_entity_slay_with_kamikaze() {
    let mut gentity = default_gentity();
    gentity.client = Some(default_gclient());
    gentity.health = 123;
    let mut game_entity = entity_of(gentity);
    let damage = game_entity.slay_with_mod_intern(meansOfDeath_t::MOD_KAMIKAZE);
    assert_eq!(
        damage,
        SelfDamage { damage: 200246, dflags: DAMAGE_NO_PROTECTION, means_of_death: meansOfDeath_t::MOD_KAMIKAZE }
    );
    assert_eq!(game_entity.gentity_t.client.unwrap().ps.stats[STAT_ARMOR], 0);
}

#[test]
fn game_entity_slay_with_mod_without_engine_does_nothing() {
    let mut gentity = default_gentity();
    gentity.health = 42;
    let mut game_entity = entity_of(gentity);
    assert_eq!(game_entity.slay_with_mod(meansOfDeath_t::MOD_CRUSH, false), None);
    assert_eq!(game_entity.get_health(), 42);
}

#[test]
fn game_entity_in_use() {
    let mut gentity = default_gentity();
    gentity.inuse = true;
    assert_eq!(entity_of(gentity).in_use(), true);
}

#[test]
fn game_entity_get_classname() {
    let mut gentity = default_gentity();
    gentity.classname = c_string("entity classname");
    assert_eq!(entity_of(gentity).get_classname(), "entity classname");
}

#[test]
fn game_entity_is_game_item() {
    let mut gentity = default_gentity();
    gentity.s.eType = 2;
    let game_entity = entity_of(gentity);
    assert_eq!(game_entity.is_game_item(entityType_t::ET_ITEM), true);
    assert_eq!(game_entity.is_game_item(entityType_t::ET_PLAYER), false);
}

#[test]
fn game_entity_is_respawning_weapon_for_player_entity() {
    let mut gentity = default_gentity();
    gentity.s.eType = 1;
    assert_eq!(entity_of(gentity).is_respawning_weapon(), false);
}

#[test]
fn game_entity_is_respawning_weapon_for_null_item() {
    let mut gentity = default_gentity();
    gentity.s.eType = 1;
    gentity.item = None;
    assert_eq!(entity_of(gentity).is_respawning_weapon(), false);
}

#[test]
fn game_entity_is_respawning_weapon_for_non_weapon() {
    let mut gitem = default_gitem();
    gitem.giType = itemType_t::IT_AMMO;
    let mut gentity = default_gentity();
    gentity.s.eType = 2;
    gentity.item = Some(gitem);
    assert_eq!(entity_of(gentity).is_respawning_weapon(), false);
}

#[test]
fn game_entity_is_respawning_weapon_for_an_actual_weapon() {
    let mut gitem = default_gitem();
    gitem.giType = itemType_t::IT_WEAPON;
    let mut gentity = default_gentity();
    gentity.s.eType = 2;
    gentity.item = Some(gitem);
    assert_eq!(entity_of(gentity).is_respawning_weapon(), true);
}

#[test]
fn game_entity_has_flags_with_no_flags() {
    let mut gentity = default_gentity();
    gentity.flags = 0;
    assert_eq!(entity_of(gentity).has_flags(), false);
}

#[test]
fn game_entity_has_flags_with_flags_set() {
    let mut gentity = default_gentity();
    gentity.flags = 42;
    assert_eq!(entity_of(gentity).has_flags(), true);
}

#[test]
fn game_entity_is_dropped_item_for_non_dropped_item() {
    let mut gentity = default_gentity();
    gentity.flags = FL_FORCE_GESTURE;
    assert_eq!(entity_of(gentity).is_dropped_item(), false);
}

#[test]
fn game_entity_is_dropped_item_for_dropped_item() {
    let mut gentity = default_gentity();
    gentity.flags = FL_DROPPED_ITEM;
    assert_eq!(entity_of(gentity).is_dropped_item(), true);
}

#[test]
fn game_entity_get_client_number() {
    let mut gentity = default_gentity();
    gentity.s.clientNum = 42;
    assert_eq!(entity_of(gentity).get_client_number(), 42);
}

#[test]
fn game_entity_is_kamikaze_timer_for_non_kamikaze_timer() {
    let mut gentity = default_gentity();
    gentity.classname = c_string("no kamikaze timer");
    assert_eq!(entity_of(gentity).is_kamikaze_timer(), false);
}

#[test]
fn game_entity_is_kamikaze_timer_for_kamikaze_timer() {
    let mut gentity = default_gentity();
    gentity.classname = c_string("kamikaze timer");
    assert_eq!(entity_of(gentity).is_kamikaze_timer(), true);
}

#[test]
fn game_entity_free_entity() {
    let game_entity = entity_of(default_gentity());
    assert_eq!(game_entity.free_entity_intern(), EntityCommand::FreeEntity);
    assert_eq!(game_entity.free_entity(true), Some(EntityCommand::FreeEntity));
    assert_eq!(game_entity.free_entity(false), None);
}

#[test]
fn game_entity_drop_holdable_hands_the_item_to_the_engine() {
    let mut gclient = default_gclient();
    gclient.ps.stats[1] = 27;
    let mut gentity = default_gentity();
    gentity.client = Some(gclient);
    let mut game_entity = entity_of(gentity);
    let drop = game_entity.drop_holdable_intern(5000, 40);
    assert_eq!(drop.map(|d| (d.item_id, d.next_think, d.trajectory_time)), Some((27, 6000, 4500)));
    assert_eq!(game_entity.gentity_t.client.unwrap().ps.stats[1], 0);
}
