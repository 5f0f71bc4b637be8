use shinqlx::current_level::{CurrentLevel, LevelLocals};
use shinqlx::dispatchers::{allow_free_client, disallow_free_client};
use shinqlx::game_client::{ClientPersistant, ClientSession, ExpandedStats, GClient, GameClient, PlayerState};
use shinqlx::lifecycle::{
    handler_slot, loader_finished, pyminqlx_initialize, pyminqlx_reload, register_handler, HandlerSlot,
    PythonInitializationError,
};
use shinqlx::python_types::{Holdable, Weapons};
use shinqlx::quake_types::{
    clientConnected_t, pmtype_t, privileges_t, team_t, voteState_t, weapon_t, EF_KAMIKAZE, MODELINDEX_KAMIKAZE,
};

fn default_gclient() -> GClient {
    GClient {
        ps: PlayerState {
            clientNum: 0,
            pm_type: pmtype_t::PM_NORMAL,
            eFlags: 0,
            weapon: 0,
            stats: [0; 16],
            persistant: [0; 16],
            powerups: [0; 16],
            ammo: [0; 16],
            ping: 0,
        },
        pers: ClientPersistant {
            connected: clientConnected_t::CON_CONNECTED,
            netname: [0; 40],
            enterTime: 0,
            voteState: voteState_t::VOTE_NONE,
        },
        sess: ClientSession { sessionTeam: team_t::TEAM_RED, privileges: privileges_t::PRIV_NONE },
        noclip: false,
        invulnerabilityTime: 0,
        expandedStats: ExpandedStats { numKills: 0, numDeaths: 0, totalDamageDealt: 0, totalDamageTaken: 0 },
    }
}

fn game_client() -> GameClient {
    GameClient::try_from(Some(default_gclient())).unwrap()
}

fn level_at(time: i32) -> CurrentLevel {
    CurrentLevel::try_from(Some(LevelLocals { time })).unwrap()
}

#[test]
fn weapons_read_back_as_held_or_not() {
    let mut client = game_client();
    client.set_weapons([1, 0, 5, 0, -3, 1, 0, 0, 2, 0, 0, 0, 1, 0, 1]);
    assert_eq!(client.get_weapons(), [1, 0, 1, 0, 0, 1, 0, 0, 1, 0, 0, 0, 1, 0, 1]);
}

#[test]
fn ammos_read_back_as_set() {
    let mut client = game_client();
    let ammos = [3, 100, 25, 10, 5, 150, 8, 50, 15, 40, 20, 10, 100, 75, -1];
    client.set_ammos(ammos);
    assert_eq!(client.get_ammos(), ammos);
}

#[test]
fn powerups_read_back_as_set_on_a_whole_second() {
    let mut client = game_client();
    let level = level_at(3000);
    let powerups = [5000, 0, 1000, 0, 42, 7];
    client.set_powerups(powerups, &level);
    assert_eq!(client.get_powerups(&level), powerups);
}

#[test]
fn powerups_read_back_less_the_started_second() {
    let mut client = game_client();
    let level = level_at(1234);
    client.set_powerups([5000, 0, 0, 0, 0, 0], &level);
    assert_eq!(client.get_powerups(&level), [4766, 0, 0, 0, 0, 0]);
}

#[test]
fn armor_reads_back_as_set() {
    let mut client = game_client();
    client.set_armor(123);
    assert_eq!(client.get_armor(), 123);
}

#[test]
fn score_reads_back_as_set_for_a_team_player() {
    let mut client = game_client();
    client.set_score(17);
    assert_eq!(client.get_score(), 17);
}

#[test]
fn holdable_reads_back_as_set_and_kamikaze_sets_the_flag() {
    let mut client = game_client();
    client.set_holdable(MODELINDEX_KAMIKAZE);
    assert_eq!(client.get_holdable(), MODELINDEX_KAMIKAZE);
    assert_ne!(client.game_client.ps.eFlags & EF_KAMIKAZE, 0);
    client.set_holdable(27);
    assert_eq!(client.get_holdable(), 27);
    assert_eq!(client.game_client.ps.eFlags & EF_KAMIKAZE, 0);
}

#[test]
fn flight_reads_back_as_set() {
    let mut client = game_client();
    client.set_flight([10, 20, 30, 40]);
    assert_eq!(client.get_current_flight_fuel(), 10);
    assert_eq!(client.get_max_flight_fuel(), 20);
    assert_eq!(client.get_flight_thrust(), 30);
    assert_eq!(client.get_flight_refuel(), 40);
}

#[test]
fn invalid_utf8_in_a_name_is_replaced() {
    let mut gclient = default_gclient();
    gclient.pers.netname[0] = 0xff;
    gclient.pers.netname[1] = b'a';
    let client = GameClient::try_from(Some(gclient)).unwrap();
    assert_eq!(client.get_player_name(), "\u{FFFD}a");
}

#[test]
fn privileges_and_weapons_keep_their_numbers() {
    for privileges in [
        privileges_t::PRIV_NONE,
        privileges_t::PRIV_MOD,
        privileges_t::PRIV_ADMIN,
        privileges_t::PRIV_ROOT,
        privileges_t::PRIV_BANNED,
    ] {
        assert_eq!(privileges_t::from_number(privileges.number()), privileges);
    }
    for weapon in [weapon_t::WP_NONE, weapon_t::WP_GAUNTLET, weapon_t::WP_RAILGUN, weapon_t::WP_HMG] {
        assert_eq!(weapon_t::from_number(weapon.number()), weapon);
    }
}

#[test]
fn holdables_keep_their_numbers() {
    for holdable in [
        Holdable::Nothing,
        Holdable::Teleporter,
        Holdable::MedKit,
        Holdable::Kamikaze,
        Holdable::Portal,
        Holdable::Invulnerability,
        Holdable::Flight,
    ] {
        assert_eq!(Holdable::from_number(holdable.number()), holdable);
    }
}

#[test]
fn weapons_keep_their_array() {
    let values = [1, 2, 3, 4, 5, 6, 7, 8, 9, 10, 11, 12, 13, 14, 15];
    assert_eq!(Weapons::from_array(values).to_array(), values);
}

#[test]
fn allowing_and_disallowing_a_free_client_restores_the_mask() {
    let mask: u64 = 0b1010_0000;
    assert_eq!(disallow_free_client(allow_free_client(mask, 5), 5), mask & !5u64);
    assert_eq!(allow_free_client(0, 2), 2);
}

#[test]
fn the_interpreter_is_set_up_once() {
    assert_eq!(pyminqlx_initialize(false), Ok(()));
    assert_eq!(loader_finished(true), (true, Ok(())));
    assert_eq!(pyminqlx_initialize(true), Err(PythonInitializationError::AlreadyInitialized));
    assert!(pyminqlx_reload(true).is_ok());
}

#[test]
fn a_failed_loader_leaves_the_interpreter_down() {
    assert_eq!(loader_finished(false), (false, Err(PythonInitializationError::MainScriptError)));
    assert_eq!(pyminqlx_reload(false), Err(PythonInitializationError::NotInitializedError));
    assert_eq!(pyminqlx_initialize(false), Ok(()));
}

#[test]
fn a_reload_clears_every_registrable_handler() {
    let slots = pyminqlx_reload(true).unwrap();
    for event in [
        "client_command",
        "server_command",
        "frame",
        "player_connect",
        "player_loaded",
        "player_disconnect",
        "custom_command",
        "new_game",
        "set_configstring",
        "rcon",
        "console_print",
        "player_spawn",
        "kamikaze_use",
        "kamikaze_explode",
        "damage",
    ] {
        let slot: HandlerSlot = register_handler(event, Some(true)).unwrap();
        assert_eq!(handler_slot(event), Some(slot));
        assert!(slots.contains(&slot));
    }
    assert_eq!(slots.len(), 15);
}
