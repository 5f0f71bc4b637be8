use shinqlx::client::Client;
use shinqlx::game_client::{ClientPersistant, ClientSession, ExpandedStats, GClient, PlayerState};
use shinqlx::game_entity::{EntityShared, EntityState, GEntity, GameEntity};
use shinqlx::hooks::{
    kamikaze_explode_report, passed_on_command, printed_message, shinqlx_client_connect, shinqlx_client_spawn,
    shinqlx_cmd_addcommand, shinqlx_com_printf, shinqlx_drop_client, shinqlx_execute_client_command, shinqlx_g_damage,
    shinqlx_g_initgame, shinqlx_g_startkamikaze, shinqlx_send_server_command, shinqlx_set_configstring,
    shinqlx_sv_cliententerworld, shinqlx_sv_setconfigstring, shinqlx_sv_spawnserver, shinqlx_sys_setmoduleoffset,
    to_return_string, ClientDrop, CommandStep, ConfigstringStep, ConnectAnswer, DamageReport, DamageStep, KamikazeStart,
    ShiNQlx_Switch_Touch_Item, ShiNQlx_Touch_Item,
};
use shinqlx::quake_types::{
    clientConnected_t, clientState_t, pmtype_t, privileges_t, team_t, voteState_t, EF_KAMIKAZE,
};

fn client(client_id: i32, has_gentity: bool) -> Client {
    Client {
        client_id,
        state: clientState_t::CS_ACTIVE,
        has_gentity,
        userinfo: String::new(),
        steam_id: 0,
    }
}

fn default_gclient() -> GClient {
    GClient {
        ps: PlayerState {
            clientNum: 0,
            pm_type: pmtype_t::PM_NORMAL,
            eFlags: 0,
            weapon: 0,
            stats: [0; 16],
            persistant: [0; 16],
            powerups: [0; 16],
            ammo: [0; 16],
            ping: 0,
        },
        pers: ClientPersistant {
            connected: clientConnected_t::CON_DISCONNECTED,
            netname: [0; 40],
            enterTime: 0,
            voteState: voteState_t::VOTE_NONE,
        },
        sess: ClientSession { sessionTeam: team_t::TEAM_FREE, privileges: privileges_t::PRIV_NONE },
        noclip: false,
        invulnerabilityTime: 0,
        expandedStats: ExpandedStats { numKills: 0, numDeaths: 0, totalDamageDealt: 0, totalDamageTaken: 0 },
    }
}

fn default_gentity() -> GEntity {
    GEntity {
        s: EntityState { eType: 0, clientNum: 0, modelindex: 0 },
        r: EntityShared { ownerNum: 0 },
        client: None,
        activator: None,
        health: 0,
        inuse: false,
        classname: vec![0],
        item: None,
        flags: 0,
        target: None,
        targetname: None,
    }
}

#[test]
fn add_command_with_no_main_engine() {
    assert_eq!(shinqlx_cmd_addcommand(false, ""), false);
}

#[test]
fn add_command_with_main_engine_already_initiailized_command_empty() {
    assert_eq!(shinqlx_cmd_addcommand(true, ""), false);
}

#[test]
fn add_command_with_main_engine_already_initialized() {
    assert_eq!(shinqlx_cmd_addcommand(true, "slap"), true);
}

#[test]
fn add_command_with_main_engine_not_initiailized_command_non_empty() {
    assert_eq!(shinqlx_cmd_addcommand(true, "slap"), true);
}

#[test]
fn sys_setmoduleoffset_no_main_engine() {
    assert_eq!(shinqlx_sys_setmoduleoffset("qagame"), true);
}

#[test]
fn sys_setmoduleoffset_vm_init_ok() {
    assert_eq!(shinqlx_sys_setmoduleoffset("qagame"), true);
}

#[test]
fn sys_setmoduleoffset_for_unknown_module() {
    assert_eq!(shinqlx_sys_setmoduleoffset("cgame"), false);
}

#[test]
fn init_game_with_no_main_engine() {
    assert_eq!(shinqlx_g_initgame(false, 0), false);
}

#[test]
fn init_game_without_restart() {
    assert_eq!(shinqlx_g_initgame(true, 0), false);
}

#[test]
fn init_game_with_restart() {
    assert_eq!(shinqlx_g_initgame(true, 1), true);
}

#[test]
fn execute_client_command_with_no_main_engine() {
    assert_eq!(shinqlx_execute_client_command(false, None, "cp asdf", true), CommandStep::Skip);
}

#[test]
fn execute_client_command_for_none_client_non_empty_cmd() {
    assert_eq!(shinqlx_execute_client_command(true, None, "cp asdf", true), CommandStep::Forward);
}

#[test]
fn execute_client_command_for_not_ok_client_non_empty_cmd() {
    let mock_client = client(42, true);
    assert_eq!(shinqlx_execute_client_command(true, Some(&mock_client), "cp asdf", false), CommandStep::Forward);
}

#[test]
fn execute_client_command_for_ok_client_without_gentity_non_empty_cmd() {
    let mock_client = client(42, false);
    assert_eq!(shinqlx_execute_client_command(true, Some(&mock_client), "cp asdf", true), CommandStep::Forward);
}

#[test]
fn execute_client_command_for_ok_client_with_gentity_non_empty_cmd_dispatcher_returns_none() {
    let mock_client = client(42, true);
    assert_eq!(
        shinqlx_execute_client_command(true, Some(&mock_client), "cp asdf", true),
        CommandStep::Dispatch { client_id: Some(42) }
    );
    assert_eq!(passed_on_command(None), None);
}

#[test]
fn execute_client_command_for_ok_client_with_gentity_non_empty_cmd_dispatcher_returns_modified_string() {
    assert_eq!(passed_on_command(Some("cp modified".to_string())), Some("cp modified".to_string()));
}

#[test]
fn execute_client_command_for_ok_client_with_gentity_non_empty_cmd_dispatcher_returns_empty_string() {
    assert_eq!(passed_on_command(Some("".to_string())), None);
}

#[test]
fn execute_client_command_with_empty_command() {
    let mock_client = client(42, true);
    assert_eq!(shinqlx_execute_client_command(true, Some(&mock_client), "", true), CommandStep::Skip);
}

#[test]
fn send_server_command_with_no_main_engine() {
    assert_eq!(shinqlx_send_server_command(false, None, "cp asdf"), CommandStep::Skip);
}

#[test]
fn send_server_command_for_none_client_non_empty_cmd_dispatcher_returns_none() {
    assert_eq!(shinqlx_send_server_command(true, None, "cp asdf"), CommandStep::Dispatch { client_id: None });
    assert_eq!(passed_on_command(None), None);
}

#[test]
fn send_server_command_for_client_without_gentity_non_empty_cmd() {
    let mock_client = client(42, false);
    assert_eq!(shinqlx_send_server_command(true, Some(&mock_client), "cp asdf"), CommandStep::Forward);
}

#[test]
fn send_server_command_for_client_with_gentity_non_empty_cmd_dispatcher_returns_none() {
    let mock_client = client(42, true);
    assert_eq!(
        shinqlx_send_server_command(true, Some(&mock_client), "cp asdf"),
        CommandStep::Dispatch { client_id: Some(42) }
    );
}

#[test]
fn client_enter_world_with_no_main_engine() {
    let mock_client = client(42, true);
    assert_eq!(shinqlx_sv_cliententerworld(false, &mock_client, clientState_t::CS_PRIMED), false);
}

#[test]
fn client_enter_world_for_primed_client_with_gentity() {
    let mock_client = client(42, true);
    assert_eq!(shinqlx_sv_cliententerworld(true, &mock_client, clientState_t::CS_PRIMED), true);
    assert_eq!(shinqlx_sv_cliententerworld(true, &mock_client, clientState_t::CS_ACTIVE), false);
    let no_gentity = client(42, false);
    assert_eq!(shinqlx_sv_cliententerworld(true, &no_gentity, clientState_t::CS_PRIMED), false);
}

#[test]
fn set_configstring_with_no_main_engine() {
    assert_eq!(shinqlx_set_configstring(false, 42), ConfigstringStep::Skip);
}

#[test]
fn set_configstring_for_undispatched_index() {
    for index in [16u32, 662, 663, 664, 665, 666, 667, 668, 669] {
        assert_eq!(shinqlx_set_configstring(true, index), ConfigstringStep::Forward(index as i32));
    }
}

#[test]
fn set_configstring_for_dispatched_index() {
    assert_eq!(shinqlx_set_configstring(true, 42), ConfigstringStep::Dispatch(42));
    assert_eq!(shinqlx_set_configstring(true, 670), ConfigstringStep::Dispatch(670));
}

#[test]
fn sv_setconfigstring_with_negative_index() {
    assert_eq!(shinqlx_sv_setconfigstring(-1), None);
    assert_eq!(shinqlx_sv_setconfigstring(42), Some(42));
}

#[test]
fn drop_client_is_dispatched_and_original_function_called() {
    let mock_client = client(42, true);
    assert_eq!(
        shinqlx_drop_client(&mock_client, "disconnected."),
        ClientDrop { client_id: 42, reason: "disconnected.".to_string() }
    );
}

#[test]
fn com_printf_with_no_main_engine() {
    assert_eq!(shinqlx_com_printf(false), false);
}

#[test]
fn com_printf_when_dispatcher_returns_none() {
    assert_eq!(shinqlx_com_printf(true), true);
    assert_eq!(printed_message("Hello World!", None), None);
}

#[test]
fn com_printf_when_dispatcher_returns_some_value() {
    assert_eq!(printed_message("Hello World!", Some("Hello you!".to_string())), Some("Hello World!".to_string()));
}

#[test]
fn sv_spawnserver_with_no_main_engine() {
    assert_eq!(shinqlx_sv_spawnserver(false, "l33t ql server"), false);
}

#[test]
fn sv_spawnserver_forwards_to_python() {
    assert_eq!(shinqlx_sv_spawnserver(true, "l33t ql server"), true);
    assert_eq!(shinqlx_sv_spawnserver(true, ""), false);
}

#[test]
fn client_connect_with_no_main_engine() {
    assert_eq!(shinqlx_client_connect(false, false, false, None), ConnectAnswer::NoEngine);
}

#[test]
fn client_connect_not_first_time_client() {
    assert_eq!(shinqlx_client_connect(true, false, false, None), ConnectAnswer::EngineDecides);
}

#[test]
fn client_connect_first_time_client_dispatcher_returns_none() {
    assert_eq!(shinqlx_client_connect(true, true, false, None), ConnectAnswer::EngineDecides);
}

#[test]
fn client_connect_first_time_client_dispatcher_returns_string() {
    assert_eq!(
        shinqlx_client_connect(true, true, false, Some("you are banned from this server".to_string())),
        ConnectAnswer::Rejected("you are banned from this server".to_string())
    );
    assert_eq!(to_return_string("you are banned from this server"), b"you are banned from this server\0".to_vec());
}

#[test]
fn client_connect_first_time_client_dispatcher_returns_some_for_bot() {
    assert_eq!(
        shinqlx_client_connect(true, true, true, Some("we don't like bots here".to_string())),
        ConnectAnswer::EngineDecides
    );
}

#[test]
fn client_spawn_with_no_main_engine() {
    let game_entity = GameEntity::try_from(Some(default_gentity()), 42).unwrap();
    assert_eq!(shinqlx_client_spawn(false, &game_entity, Some(0)), None);
}

#[test]
fn client_spawn_forwards_to_ql_and_python() {
    let game_entity = GameEntity::try_from(Some(default_gentity()), 42).unwrap();
    assert_eq!(shinqlx_client_spawn(true, &game_entity, Some(0)), Some(42));
}

#[test]
fn kamikaze_start_for_non_game_client() {
    let mut game_entity = GameEntity::try_from(Some(default_gentity()), 0).unwrap();
    let start = shinqlx_g_startkamikaze(&mut game_entity);
    assert_eq!(start, KamikazeStart { client_id: -1, dispatch_use: false });
    assert_eq!(kamikaze_explode_report(start.client_id, game_entity.gentity_t.client.is_some()), None);
}

#[test]
fn kamikaze_start_for_existing_game_client_removes_kamikaze_flag() {
    let mut gclient = default_gclient();
    gclient.ps.clientNum = 42;
    gclient.ps.eFlags = EF_KAMIKAZE | 1;
    let mut gentity = default_gentity();
    gentity.client = Some(gclient);
    let mut game_entity = GameEntity::try_from(Some(gentity), 0).unwrap();
    let start = shinqlx_g_startkamikaze(&mut game_entity);
    assert_eq!(start, KamikazeStart { client_id: 42, dispatch_use: true });
    assert_eq!(game_entity.gentity_t.client.unwrap().ps.eFlags, 1);
    assert_eq!(kamikaze_explode_report(start.client_id, game_entity.gentity_t.client.is_some()), Some((42, true)));
}

#[test]
fn kamikaze_start_for_activator_use() {
    let mut gentity = default_gentity();
    gentity.activator = Some(EntityShared { ownerNum: 42 });
    let mut game_entity = GameEntity::try_from(Some(gentity), 0).unwrap();
    let start = shinqlx_g_startkamikaze(&mut game_entity);
    assert_eq!(start, KamikazeStart { client_id: 42, dispatch_use: false });
    assert_eq!(kamikaze_explode_report(start.client_id, game_entity.gentity_t.client.is_some()), Some((42, false)));
}

#[test]
fn g_damage_with_no_main_engine() {
    assert_eq!(shinqlx_g_damage(false, None, None, 0, 0, 0), DamageStep { deal_damage: false, report: None });
}

#[test]
fn g_damage_for_null_target_is_not_forwarded() {
    assert_eq!(shinqlx_g_damage(true, None, Some(21), 666, 16, 7), DamageStep { deal_damage: true, report: None });
}

#[test]
fn g_damage_for_target_and_attacker_is_forwarded() {
    assert_eq!(
        shinqlx_g_damage(true, Some(42), Some(21), 666, 16, 7),
        DamageStep {
            deal_damage: true,
            report: Some(DamageReport { target_id: 42, attacker_id: Some(21), damage: 666, dflags: 16, means_of_death: 7 }),
        }
    );
}

#[test]
fn g_damage_for_target_without_attacker_is_forwarded() {
    assert_eq!(
        shinqlx_g_damage(true, Some(42), None, 50, 4, 2),
        DamageStep {
            deal_damage: true,
            report: Some(DamageReport { target_id: 42, attacker_id: None, damage: 50, dflags: 4, means_of_death: 2 }),
        }
    );
}

#[test]
fn touch_item_by_the_dropping_player_is_not_handed_on() {
    assert_eq!(ShiNQlx_Touch_Item(true), false);
    assert_eq!(ShiNQlx_Touch_Item(false), true);
}

#[test]
fn switch_touch_item_frees_the_item_29_seconds_later() {
    assert_eq!(ShiNQlx_Switch_Touch_Item(1234), 30234);
}
