use shinqlx::client::Client;
use shinqlx::current_level::{CurrentLevel, LevelLocals};
use shinqlx::dispatchers::{
    client_command_dispatcher, client_connect_dispatcher, console_print_dispatcher, server_command_dispatcher,
    set_configstring_dispatcher, HandlerReturn,
};
use shinqlx::game_client::{ClientPersistant, ClientSession, ExpandedStats, GClient, PlayerState};
use shinqlx::game_entity::{EntityShared, EntityState, GEntity, GameEntity};
use shinqlx::lifecycle::{register_handler, HandlerSlot};
use shinqlx::player_info::PlayerInfo;
use shinqlx::python_api::{
    add_console_command, client_command, console_command, force_vote, get_configstring, get_cvar,
    get_player_info, get_players_info, get_userinfo, kick, player_info_from, player_stats, send_server_command,
    set_configstring, set_cvar, set_cvar_limit, CvarWrite, PlayerSlot, PlayerStats, PythonError,
};
use shinqlx::quake_types::{
    clientConnected_t, clientState_t, pmtype_t, privileges_t, team_t, voteState_t, PERS_ROUND_SCORE,
};

fn client_in_state(client_id: i32, state: clientState_t) -> Client {
    Client { client_id, state, has_gentity: true, userinfo: "asdf".to_string(), steam_id: 1234 }
}

fn default_gclient() -> GClient {
    GClient {
        ps: PlayerState {
            clientNum: 0,
            pm_type: pmtype_t::PM_NORMAL,
            eFlags: 0,
            weapon: 0,
            stats: [0; 16],
            persistant: [0; 16],
            powerups: [0; 16],
            ammo: [0; 16],
            ping: 0,
        },
        pers: ClientPersistant {
            connected: clientConnected_t::CON_DISCONNECTED,
            netname: [0; 40],
            enterTime: 0,
            voteState: voteState_t::VOTE_NONE,
        },
        sess: ClientSession { sessionTeam: team_t::TEAM_FREE, privileges: privileges_t::PRIV_NONE },
        noclip: false,
        invulnerabilityTime: 0,
        expandedStats: ExpandedStats { numKills: 0, numDeaths: 0, totalDamageDealt: 0, totalDamageTaken: 0 },
    }
}

fn default_gentity() -> GEntity {
    GEntity {
        s: EntityState { eType: 0, clientNum: 0, modelindex: 0 },
        r: EntityShared { ownerNum: 0 },
        client: None,
        activator: None,
        health: 0,
        inuse: false,
        classname: vec![0],
        item: None,
        flags: 0,
        target: None,
        targetname: None,
    }
}

/// An entity whose player is connected under `name`, in `team`, with `privileges`.
fn player_entity(name: &str, team: team_t, privileges: privileges_t) -> GameEntity {
    let mut gclient = default_gclient();
    gclient.pers.connected = clientConnected_t::CON_CONNECTED;
    for (index, byte) in name.bytes().enumerate() {
        gclient.pers.netname[index] = byte;
    }
    gclient.sess.sessionTeam = team;
    gclient.sess.privileges = privileges;
    let mut gentity = default_gentity();
    gentity.client = Some(gclient);
    GameEntity::try_from(Some(gentity), 0).unwrap()
}

fn is_environment_error<T>(result: &Result<T, PythonError>) -> bool {
    matches!(result, Err(PythonError::EnvironmentError(msg)) if msg == "main quake live engine not set")
}

fn is_value_error<T>(result: &Result<T, PythonError>) -> bool {
    matches!(result, Err(PythonError::ValueError(_)))
}

#[test]
fn client_command_dispatcher_when_python_not_initiailized() {
    assert_eq!(client_command_dispatcher("asdf", None), Some("asdf".to_string()));
}

#[test]
fn client_command_dispatcher_when_dispatcher_not_initiailized() {
    assert_eq!(client_command_dispatcher("asdf", None), Some("asdf".to_string()));
}

#[test]
fn client_command_dispatcher_with_handler_results() {
    assert_eq!(client_command_dispatcher("asdf", Some(HandlerReturn::Failed)), Some("asdf".to_string()));
    assert_eq!(client_command_dispatcher("asdf", Some(HandlerReturn::Flag(false))), None);
    assert_eq!(client_command_dispatcher("asdf", Some(HandlerReturn::Flag(true))), Some("asdf".to_string()));
    assert_eq!(
        client_command_dispatcher("asdf", Some(HandlerReturn::Text("qwertz".to_string()))),
        Some("qwertz".to_string())
    );
    assert_eq!(client_command_dispatcher("asdf", Some(HandlerReturn::Other)), Some("asdf".to_string()));
}

#[test]
fn server_command_dispatcher_when_python_not_initiailized() {
    assert_eq!(server_command_dispatcher("asdf", None), Some("asdf".to_string()));
}

#[test]
fn server_command_dispatcher_when_dispatcher_not_initiailized() {
    assert_eq!(server_command_dispatcher("asdf", None), Some("asdf".to_string()));
}

#[test]
fn client_connect_dispatcher_when_python_not_initiailized() {
    assert_eq!(client_connect_dispatcher(None), None);
}

#[test]
fn client_connect_dispatcher_when_dispatcher_not_initiailized() {
    assert_eq!(client_connect_dispatcher(None), None);
}

#[test]
fn client_connect_dispatcher_with_handler_results() {
    assert_eq!(client_connect_dispatcher(Some(HandlerReturn::Flag(false))), Some("You are banned from this server.".to_string()));
    assert_eq!(
        client_connect_dispatcher(Some(HandlerReturn::Text("qwertz".to_string()))),
        Some("qwertz".to_string())
    );
    assert_eq!(client_connect_dispatcher(Some(HandlerReturn::Flag(true))), None);
    assert_eq!(client_connect_dispatcher(Some(HandlerReturn::Failed)), None);
}

#[test]
fn set_configstring_dispatcher_when_python_not_initiailized() {
    assert_eq!(set_configstring_dispatcher("asdf", None), Some("asdf".to_string()));
}

#[test]
fn set_configstring_dispatcher_when_dispatcher_not_initiailized() {
    assert_eq!(set_configstring_dispatcher("asdf", None), Some("asdf".to_string()));
}

#[test]
fn console_print_dispatcher_when_python_not_initiailized() {
    assert_eq!(console_print_dispatcher("asdf", None), Some("asdf".to_string()));
}

#[test]
fn console_print_dispatcher_when_dispatcher_not_initiailized() {
    assert_eq!(console_print_dispatcher("asdf", None), Some("asdf".to_string()));
}

#[test]
fn player_info_python_string() {
    let player_info = PlayerInfo {
        client_id: 2,
        name: "UnknownPlayer".into(),
        connection_state: 4,
        userinfo: "asdf".into(),
        steam_id: 42,
        team: 3,
        privileges: 0,
    };
    assert_eq!(
        player_info.__str__(),
        "PlayerInfo(client_id=2, name=UnknownPlayer, connection_state=4, userinfo=asdf, steam_id=42, team=3, privileges=0)"
    );
}

#[test]
fn player_info_python_repr() {
    let player_info = PlayerInfo {
        client_id: 2,
        name: "UnknownPlayer".into(),
        connection_state: 4,
        userinfo: "asdf".into(),
        steam_id: 42,
        team: 3,
        privileges: 0,
    };
    assert_eq!(
        player_info.__repr__(),
        "PlayerInfo(client_id=2, name=UnknownPlayer, connection_state=4, userinfo=asdf, steam_id=42, team=3, privileges=0)"
    );
}

#[test]
fn player_info_from_existing_game_entity_and_client() {
    let entity = player_entity("UnknownPlayer", team_t::TEAM_SPECTATOR, privileges_t::PRIV_NONE);
    let mut client = client_in_state(2, clientState_t::CS_ACTIVE);
    client.steam_id = 42;
    assert_eq!(
        player_info_from(2, Some(&entity), Some(&client)),
        PlayerInfo {
            client_id: 2,
            name: "UnknownPlayer".into(),
            connection_state: 4,
            userinfo: "asdf".into(),
            steam_id: 42,
            team: 3,
            privileges: 0,
        }
    );
}

#[test]
fn player_info_from_without_game_entity() {
    assert_eq!(
        player_info_from(2, None, None),
        PlayerInfo {
            client_id: 2,
            name: "".into(),
            connection_state: 0,
            userinfo: "".into(),
            steam_id: 0,
            team: 3,
            privileges: -1,
        }
    );
}

#[test]
fn get_player_info_when_main_engine_not_initialized() {
    assert!(is_environment_error(&get_player_info(None, 0, None, None, 0)));
}

#[test]
fn get_player_info_for_client_id_below_zero() {
    let result = get_player_info(Some(16), -1, None, None, 0);
    assert_eq!(result, Err(PythonError::ValueError("client_id needs to be a number from 0 to 15.".into())));
}

#[test]
fn get_player_info_for_client_id_above_max_clients() {
    assert!(is_value_error(&get_player_info(Some(16), 42, None, None, 0)));
}

#[test]
fn get_player_info_for_existing_client() {
    let entity = player_entity("Mocked Player", team_t::TEAM_RED, privileges_t::PRIV_NONE);
    let client = client_in_state(2, clientState_t::CS_ACTIVE);
    assert_eq!(
        get_player_info(Some(16), 2, Some(&entity), Some(&client), 0),
        Ok(Some(PlayerInfo {
            client_id: 2,
            name: "Mocked Player".into(),
            connection_state: 4,
            userinfo: "asdf".into(),
            steam_id: 1234,
            team: 1,
            privileges: 0,
        }))
    );
}

#[test]
fn get_player_info_for_non_allowed_free_client() {
    let client = client_in_state(2, clientState_t::CS_FREE);
    assert_eq!(get_player_info(Some(16), 2, None, Some(&client), 0), Ok(None));
}

#[test]
fn get_player_info_for_allowed_free_client() {
    let entity = player_entity("Mocked Player", team_t::TEAM_RED, privileges_t::PRIV_NONE);
    let client = client_in_state(2, clientState_t::CS_FREE);
    assert_eq!(
        get_player_info(Some(16), 2, Some(&entity), Some(&client), 2),
        Ok(Some(PlayerInfo {
            client_id: 2,
            name: "Mocked Player".into(),
            connection_state: 0,
            userinfo: "asdf".into(),
            steam_id: 1234,
            team: 1,
            privileges: 0,
        }))
    );
}

#[test]
fn get_players_info_when_main_engine_not_initialized() {
    assert!(is_environment_error(&get_players_info(None, &Vec::new())));
}

#[test]
fn get_players_info_skips_free_slots() {
    let slots = vec![
        PlayerSlot { client: Some(client_in_state(0, clientState_t::CS_FREE)), entity: None },
        PlayerSlot {
            client: Some(client_in_state(1, clientState_t::CS_ACTIVE)),
            entity: Some(player_entity("Mocked Player", team_t::TEAM_BLUE, privileges_t::PRIV_ADMIN)),
        },
        PlayerSlot { client: None, entity: None },
    ];
    assert_eq!(
        get_players_info(Some(3), &slots),
        Ok(vec![Some(PlayerInfo {
            client_id: 1,
            name: "Mocked Player".into(),
            connection_state: 4,
            userinfo: "asdf".into(),
            steam_id: 1234,
            team: 2,
            privileges: 2,
        })])
    );
    assert_eq!(get_players_info(Some(1), &slots), Ok(vec![]));
}

#[test]
fn get_userinfo_when_main_engine_not_initialized() {
    assert!(is_environment_error(&get_userinfo(None, 0, None, 0)));
}

#[test]
fn pyminqlx_get_userinfo_for_client_id_below_zero() {
    assert!(is_value_error(&get_userinfo(Some(16), -1, None, 0)));
}

#[test]
fn get_userinfo_for_client_id_above_max_clients() {
    assert!(is_value_error(&get_userinfo(Some(16), 42, None, 0)));
}

#[test]
fn get_userinfo_for_existing_client() {
    let client = client_in_state(2, clientState_t::CS_ACTIVE);
    assert_eq!(get_userinfo(Some(16), 2, Some(&client), 0), Ok(Some("asdf".into())));
}

#[test]
fn get_userinfo_for_non_allowed_free_client() {
    let client = client_in_state(2, clientState_t::CS_FREE);
    assert_eq!(get_userinfo(Some(16), 2, Some(&client), 0), Ok(None));
}

#[test]
fn get_userinfo_for_allowed_free_client() {
    let client = client_in_state(2, clientState_t::CS_FREE);
    assert_eq!(get_userinfo(Some(16), 2, Some(&client), 2), Ok(Some("asdf".into())));
}

#[test]
fn send_server_command_with_no_client_id() {
    assert_eq!(send_server_command(None, None, None), Ok(true));
}

#[test]
fn send_server_command_when_main_engine_not_initialized() {
    assert!(is_environment_error(&send_server_command(None, Some(0), None)));
}

#[test]
fn get_userinfo_for_client_id_below_zero() {
    let result = send_server_command(Some(16), Some(-1), None);
    assert_eq!(result, Err(PythonError::ValueError("client_id needs to be a number from 0 to 15, or None.".into())));
}

#[test]
fn send_server_command_for_client_id_above_max_clients() {
    assert!(is_value_error(&send_server_command(Some(16), Some(42), None)));
}

#[test]
fn send_server_command_for_active_client() {
    let client = client_in_state(2, clientState_t::CS_ACTIVE);
    assert_eq!(send_server_command(Some(16), Some(2), Some(&client)), Ok(true));
}

#[test]
fn send_server_command_for_non_active_free_client() {
    for state in [clientState_t::CS_FREE, clientState_t::CS_CONNECTED, clientState_t::CS_PRIMED, clientState_t::CS_ZOMBIE] {
        let client = client_in_state(2, state);
        assert_eq!(send_server_command(Some(16), Some(2), Some(&client)), Ok(false));
    }
}

#[test]
fn client_command_when_main_engine_not_initialized() {
    assert!(is_environment_error(&client_command(None, 0, None)));
}

#[test]
fn client_command_for_client_id_below_zero() {
    assert!(is_value_error(&client_command(Some(16), -1, None)));
}

#[test]
fn client_command_for_client_id_above_max_clients() {
    assert!(is_value_error(&client_command(Some(16), 42, None)));
}

#[test]
fn client_command_for_active_client() {
    for state in [clientState_t::CS_ACTIVE, clientState_t::CS_CONNECTED, clientState_t::CS_PRIMED] {
        let client = client_in_state(2, state);
        assert_eq!(client_command(Some(16), 2, Some(&client)), Ok(true));
    }
}

#[test]
fn client_command_for_non_active_free_client() {
    for state in [clientState_t::CS_FREE, clientState_t::CS_ZOMBIE] {
        let client = client_in_state(2, state);
        assert_eq!(client_command(Some(16), 2, Some(&client)), Ok(false));
    }
}

#[test]
fn console_command_when_main_engine_not_initialized() {
    assert!(is_environment_error(&console_command(false)));
}

#[test]
fn console_command_with_main_engine_set() {
    assert!(console_command(true).is_ok());
}

#[test]
fn get_cvar_when_main_engine_not_initialized() {
    assert!(is_environment_error(&get_cvar(false, None)));
}

#[test]
fn get_cvar_when_cvar_not_found() {
    assert_eq!(get_cvar(true, None), Ok(None));
}

#[test]
fn get_cvar_when_cvar_is_found() {
    assert_eq!(get_cvar(true, Some("16".into())), Ok(Some("16".into())));
}

#[test]
fn set_cvar_when_main_engine_not_initialized() {
    assert!(is_environment_error(&set_cvar(false, false, None)));
}

#[test]
fn set_cvar_for_not_existing_cvar() {
    assert_eq!(set_cvar(true, false, Some(64)), Ok((true, CvarWrite::Create(Some(64)))));
}

#[test]
fn set_cvar_for_already_existing_cvar() {
    assert_eq!(set_cvar(true, true, Some(64)), Ok((false, CvarWrite::ForceSet(false))));
    assert_eq!(set_cvar(true, true, Some(-1)), Ok((false, CvarWrite::ForceSet(true))));
}

#[test]
fn set_cvar_limit_when_main_engine_not_initialized() {
    assert!(is_environment_error(&set_cvar_limit(false)));
}

#[test]
fn set_cvar_limit_forwards_parameters_to_main_engine_call() {
    assert!(set_cvar_limit(true).is_ok());
}

#[test]
fn kick_when_main_engine_not_initialized() {
    assert!(is_environment_error(&kick(None, 0, None, None)));
}

#[test]
fn kick_with_client_id_below_zero() {
    assert!(is_value_error(&kick(Some(16), -1, None, None)));
}

#[test]
fn kick_with_client_id_too_large() {
    assert!(is_value_error(&kick(Some(16), 42, None, None)));
}

#[test]
fn kick_with_client_id_for_non_active_client() {
    for state in [clientState_t::CS_FREE, clientState_t::CS_CONNECTED, clientState_t::CS_PRIMED, clientState_t::CS_ZOMBIE] {
        let client = client_in_state(2, state);
        assert_eq!(
            kick(Some(16), 2, Some(&client), None),
            Err(PythonError::ValueError("client_id must be the ID of an active player.".into()))
        );
    }
}

#[test]
fn kick_with_client_id_for_active_client_without_kick_reason() {
    let client = client_in_state(2, clientState_t::CS_ACTIVE);
    assert_eq!(kick(Some(16), 2, Some(&client), None), Ok("was kicked.".into()));
}

#[test]
fn kick_with_client_id_for_active_client_with_kick_reason() {
    let client = client_in_state(2, clientState_t::CS_ACTIVE);
    assert_eq!(kick(Some(16), 2, Some(&client), Some("please go away!")), Ok("please go away!".into()));
}

#[test]
fn kick_with_client_id_for_active_client_with_empty_kick_reason() {
    let client = client_in_state(2, clientState_t::CS_ACTIVE);
    assert_eq!(kick(Some(16), 2, Some(&client), Some("")), Ok("was kicked.".into()));
}

#[test]
fn console_print() {
    assert_eq!(shinqlx::python_api::console_print("asdf"), "asdf\n");
    assert_eq!(shinqlx::python_api::console_print(""), "\n");
}

#[test]
fn get_configstring_for_too_large_configstring_id() {
    assert_eq!(
        get_configstring(1025, true),
        Err(PythonError::ValueError("index needs to be a number from 0 to 1023.".into()))
    );
}

#[test]
fn get_configstring_when_main_engine_not_initialized() {
    assert!(is_environment_error(&get_configstring(666, false)));
}

#[test]
fn get_configstring_forwards_call_to_engine() {
    assert_eq!(get_configstring(666, true), Ok(()));
}

#[test]
fn set_configstring_with_index_out_of_bounds() {
    assert!(is_value_error(&set_configstring(2048)));
}

#[test]
fn set_configstring_with_proper_index() {
    assert_eq!(set_configstring(666), Ok(()));
}

fn voting_slot(state: clientState_t, with_game_client: bool) -> PlayerSlot {
    let mut gentity = default_gentity();
    if with_game_client {
        let mut gclient = default_gclient();
        gclient.pers.voteState = voteState_t::VOTE_PENDING;
        gentity.client = Some(gclient);
    }
    PlayerSlot {
        client: Some(client_in_state(0, state)),
        entity: Some(GameEntity::try_from(Some(gentity), 0).unwrap()),
    }
}

fn vote_of(slot: &PlayerSlot) -> Option<voteState_t> {
    slot.entity.as_ref().and_then(|e| e.gentity_t.client).map(|c| c.pers.voteState)
}

#[test]
fn force_vote_when_main_engine_not_initialized() {
    let mut slots = vec![voting_slot(clientState_t::CS_ACTIVE, true)];
    assert!(is_environment_error(&force_vote(true, None, &mut slots, true)));
    assert_eq!(vote_of(&slots[0]), Some(voteState_t::VOTE_PENDING));
}

#[test]
fn force_vote_when_no_vote_is_running() {
    let mut slots = vec![voting_slot(clientState_t::CS_ACTIVE, true)];
    assert_eq!(force_vote(false, Some(1), &mut slots, false), Ok(false));
    assert_eq!(vote_of(&slots[0]), Some(voteState_t::VOTE_PENDING));
}

#[test]
fn force_vote_for_non_active_client() {
    for state in [clientState_t::CS_ZOMBIE, clientState_t::CS_CONNECTED, clientState_t::CS_FREE, clientState_t::CS_PRIMED] {
        let mut slots = vec![voting_slot(state, true)];
        assert_eq!(force_vote(true, Some(1), &mut slots, true), Ok(true));
        assert_eq!(vote_of(&slots[0]), Some(voteState_t::VOTE_PENDING));
    }
}

#[test]
fn force_vote_for_active_client_with_no_game_client() {
    let mut slots = vec![voting_slot(clientState_t::CS_ACTIVE, false)];
    assert_eq!(force_vote(true, Some(1), &mut slots, true), Ok(true));
    assert_eq!(vote_of(&slots[0]), None);
}

#[test]
fn force_vote_for_active_client_forces_vote() {
    let mut slots = vec![voting_slot(clientState_t::CS_ACTIVE, true)];
    assert_eq!(force_vote(true, Some(1), &mut slots, true), Ok(true));
    assert_eq!(vote_of(&slots[0]), Some(voteState_t::VOTE_YES));
    let mut slots = vec![voting_slot(clientState_t::CS_ACTIVE, true), voting_slot(clientState_t::CS_ACTIVE, true)];
    assert_eq!(force_vote(true, Some(1), &mut slots, false), Ok(true));
    assert_eq!(vote_of(&slots[0]), Some(voteState_t::VOTE_NO));
    assert_eq!(vote_of(&slots[1]), Some(voteState_t::VOTE_PENDING));
}

#[test]
fn add_console_command_when_main_engine_not_initialized() {
    assert!(is_environment_error(&add_console_command(false)));
}

#[test]
fn add_console_command_adds_py_command_to_main_engine() {
    assert!(add_console_command(true).is_ok());
}

#[test]
fn register_handler_for_some_unknown_event() {
    assert_eq!(register_handler("unknown_event", Some(true)), Err(PythonError::ValueError("Unsupported event.".into())));
}

#[test]
fn register_handler_for_uncallable_handler() {
    assert_eq!(
        register_handler("client_command", Some(false)),
        Err(PythonError::TypeError("The handler must be callable.".into()))
    );
}

#[test]
fn register_handler_for_every_event() {
    let events = [
        ("client_command", HandlerSlot::ClientCommand),
        ("server_command", HandlerSlot::ServerCommand),
        ("frame", HandlerSlot::Frame),
        ("player_connect", HandlerSlot::PlayerConnect),
        ("player_loaded", HandlerSlot::PlayerLoaded),
        ("player_disconnect", HandlerSlot::PlayerDisconnect),
        ("custom_command", HandlerSlot::CustomCommand),
        ("new_game", HandlerSlot::NewGame),
        ("set_configstring", HandlerSlot::SetConfigstring),
        ("rcon", HandlerSlot::Rcon),
        ("console_print", HandlerSlot::ConsolePrint),
        ("player_spawn", HandlerSlot::PlayerSpawn),
        ("kamikaze_use", HandlerSlot::KamikazeUse),
        ("kamikaze_explode", HandlerSlot::KamikazeExplode),
        ("damage", HandlerSlot::Damage),
    ];
    for (event, slot) in events {
        assert_eq!(register_handler(event, Some(true)), Ok(slot));
        assert_eq!(register_handler(event, None), Ok(slot));
    }
}

fn stats_entity() -> GameEntity {
    let mut gclient = default_gclient();
    gclient.ps.persistant[PERS_ROUND_SCORE] = 42;
    gclient.sess.sessionTeam = team_t::TEAM_RED;
    gclient.expandedStats = ExpandedStats { numKills: 7, numDeaths: 9, totalDamageDealt: 5000, totalDamageTaken: 4200 };
    gclient.pers.enterTime = 1111;
    gclient.ps.ping = 9;
    let mut gentity = default_gentity();
    gentity.client = Some(gclient);
    GameEntity::try_from(Some(gentity), 0).unwrap()
}

fn level_at(time: i32) -> CurrentLevel {
    CurrentLevel::try_from(Some(LevelLocals { time })).unwrap()
}

#[test]
fn player_stats_when_main_engine_not_initialized() {
    assert!(is_environment_error(&player_stats(None, 21, None, &level_at(0))));
}

#[test]
fn player_stats_for_client_id_too_small() {
    assert!(is_value_error(&player_stats(Some(16), -1, None, &level_at(0))));
}

#[test]
fn player_stats_for_client_id_too_large() {
    assert!(is_value_error(&player_stats(Some(16), 666, None, &level_at(0))));
}

#[test]
fn player_stats_for_game_client() {
    let entity = stats_entity();
    assert_eq!(
        player_stats(Some(16), 2, Some(&entity), &level_at(1234)),
        Ok(Some(PlayerStats { score: 42, kills: 7, deaths: 9, damage_dealt: 5000, damage_taken: 4200, time: 123, ping: 9 }))
    );
}

#[test]
fn player_stats_for_game_entiy_with_no_game_client() {
    let entity = GameEntity::try_from(Some(default_gentity()), 0).unwrap();
    assert_eq!(player_stats(Some(16), 2, Some(&entity), &level_at(1234)), Ok(None));
}

#[test]
fn player_stats_text() {
    let stats = PlayerStats { score: 42, kills: 7, deaths: 9, damage_dealt: 5000, damage_taken: 4200, time: 123, ping: 9 };
    assert_eq!(
        stats.__str__(),
        "PlayerStats(score=42, kills=7, deaths=9, damage_dealt=5000, damage_taken=4200, time=123, ping=9)"
    );
    assert_eq!(stats.__repr__(), stats.__str__());
}
