use shinqlx::json::{get_member, JsonValue};
use shinqlx::player_info::{player_by_name, player_by_steam_id, PlayerInfo};
use shinqlx::stats_listener::{
    handle_zmq_msg, try_handle_zmq_msg, PollStep, StatsEvent, StatsListener, StatsListenerError, StatsSettings,
};

fn settings(enable: Option<i32>) -> StatsSettings {
    StatsSettings {
        zmq_stats_enable: enable,
        zmq_stats_ip: None,
        zmq_stats_port: None,
        net_port: None,
        zmq_stats_password: None,
    }
}

fn player(client_id: i32, name: &str, steam_id: i64) -> PlayerInfo {
    PlayerInfo {
        client_id,
        name: name.into(),
        connection_state: 4,
        userinfo: "".into(),
        steam_id,
        team: 1,
        privileges: 0,
    }
}

fn players() -> Vec<Option<PlayerInfo>> {
    vec![Some(player(0, "Mocked Player", 1234)), None, Some(player(2, "Another Player", 5678))]
}

#[test]
fn constructor_with_no_main_engine() {
    match StatsListener::py_new(false, &settings(Some(1))) {
        Err(StatsListenerError::EnvironmentError(msg)) => assert_eq!(msg, "main quake live engine not set"),
        other => panic!("unexpected {:?}", other),
    }
}

#[test]
fn constructor_with_disabled_zmq_cvar() {
    let listener = StatsListener::py_new(true, &settings(Some(0))).expect("this should not happen");
    assert_eq!((listener.done, listener.address.as_str(), listener.password.as_str()), (true, "", ""));
}

#[test]
fn constructor_with_defaulted_cvars() {
    let mut stats_settings = settings(Some(1));
    stats_settings.zmq_stats_ip = Some("".into());
    stats_settings.zmq_stats_password = Some("".into());
    stats_settings.net_port = Some("27960".into());
    let listener = StatsListener::py_new(true, &stats_settings).expect("this should not happen");
    assert_eq!(
        (listener.done, listener.address.as_str(), listener.password.as_str()),
        (false, "tcp://127.0.0.1:27960", "")
    );
}

#[test]
fn constructor_with_configured_cvars() {
    let mut stats_settings = settings(Some(1));
    stats_settings.zmq_stats_ip = Some("192.168.0.1".into());
    stats_settings.zmq_stats_port = Some("28960".into());
    stats_settings.zmq_stats_password = Some("p4ssw0rd".into());
    let listener = StatsListener::py_new(true, &stats_settings).expect("this should not happen");
    assert_eq!(
        (listener.done, listener.address.as_str(), listener.password.as_str()),
        (false, "tcp://192.168.0.1:28960", "p4ssw0rd")
    );
}

#[test]
fn stop_sets_done_field() {
    let mut listener = StatsListener::py_new(true, &settings(Some(1))).unwrap();
    assert_eq!(listener.get_done(), false);
    listener.stop();
    assert_eq!(listener.get_done(), true);
}

#[test]
fn keep_receiving_until_done() {
    let mut listener = StatsListener::py_new(true, &settings(Some(1))).unwrap();
    assert_eq!(listener.keep_receiving(Some(1)), PollStep::Receive);
    assert_eq!(listener.keep_receiving(Some(0)), PollStep::PollAgain);
    assert_eq!(listener.keep_receiving(None), PollStep::PollAgain);
    listener.stop();
    assert_eq!(listener.keep_receiving(Some(1)), PollStep::Stop);
}

#[test]
fn handle_zmq_msg_for_unparseable_json_msg() {
    match handle_zmq_msg("asdf", false, &players()) {
        Err(StatsListenerError::IOError(msg)) => assert!(msg.starts_with("error parsing json data: ")),
        other => panic!("unexpected {:?}", other),
    }
}

#[test]
fn try_handle_zmq_msg_for_unparseable_json_msg() {
    assert!(matches!(handle_zmq_msg("{", true, &players()), Err(StatsListenerError::IOError(_))));
}

#[test]
fn try_handle_game_start_msg_starts_the_match() {
    let message = handle_zmq_msg(r#"{"TYPE": "MATCH_STARTED", "DATA": {"MAP": "campgrounds"}}"#, false, &players()).unwrap();
    assert!(matches!(message.transition.event, Some(StatsEvent::GameStart)));
    assert_eq!(message.transition.in_progress, true);
    assert_eq!(message.transition.in_progress_if_dispatch_fails, true);
    let data = get_member(&message.stats, "DATA").unwrap();
    assert_eq!(get_member(data, "MAP"), Some(&JsonValue::Str("campgrounds".into())));
}

#[test]
fn try_handle_round_over_msg_keeps_the_state() {
    let message = handle_zmq_msg(r#"{"TYPE": "ROUND_OVER", "DATA": {"ROUND": 3}}"#, true, &players()).unwrap();
    assert!(matches!(message.transition.event, Some(StatsEvent::RoundEnd)));
    assert_eq!(message.transition.in_progress, true);
    let data = get_member(&message.stats, "DATA").unwrap();
    assert_eq!(get_member(data, "ROUND"), Some(&JsonValue::Number("3".into())));
}

#[test]
fn try_handle_match_report_ends_a_running_match() {
    let message = handle_zmq_msg(r#"{"TYPE": "MATCH_REPORT", "DATA": {}}"#, true, &players()).unwrap();
    assert!(matches!(message.transition.event, Some(StatsEvent::GameEnd)));
    assert_eq!(message.transition.in_progress, false);
    assert_eq!(message.transition.in_progress_if_dispatch_fails, true);
}

#[test]
fn try_handle_match_report_without_running_match() {
    let message = handle_zmq_msg(r#"{"TYPE": "MATCH_REPORT", "DATA": {}}"#, false, &players()).unwrap();
    assert!(message.transition.event.is_none());
    assert_eq!(message.transition.in_progress, false);
}

#[test]
fn try_handle_player_death_with_killer() {
    let text = r#"{"TYPE": "PLAYER_DEATH", "DATA": {"VICTIM": {"NAME": "Mocked Player", "STEAM_ID": "1234"}, "KILLER": {"NAME": "Another Player", "STEAM_ID": "5678"}}}"#;
    let message = handle_zmq_msg(text, true, &players()).unwrap();
    match message.transition.event {
        Some(StatsEvent::Death(event)) => {
            assert_eq!(event.victim.id, 0);
            assert_eq!(event.killer.map(|k| k.id), Some(2));
        },
        other => panic!("unexpected {:?}", other),
    }
}

#[test]
fn try_handle_player_death_by_name_without_killer() {
    let text = r#"{"TYPE": "PLAYER_DEATH", "DATA": {"VICTIM": {"NAME": "Another Player", "STEAM_ID": "0"}, "KILLER": null}}"#;
    let message = handle_zmq_msg(text, true, &players()).unwrap();
    match message.transition.event {
        Some(StatsEvent::Death(event)) => {
            assert_eq!(event.victim.id, 2);
            assert!(event.killer.is_none());
        },
        other => panic!("unexpected {:?}", other),
    }
}

#[test]
fn try_handle_player_death_of_unknown_player() {
    let text = r#"{"TYPE": "PLAYER_DEATH", "DATA": {"VICTIM": {"NAME": "Nobody", "STEAM_ID": "999"}}}"#;
    let message = handle_zmq_msg(text, true, &players()).unwrap();
    assert!(message.transition.event.is_none());
}

#[test]
fn try_handle_team_switch_lowercases_teams() {
    let text = r#"{"TYPE": "PLAYER_SWITCHTEAM", "DATA": {"KILLER": {"NAME": "Mocked Player", "STEAM_ID": "1234", "OLD_TEAM": "RED", "TEAM": "BLUE"}}}"#;
    let message = handle_zmq_msg(text, true, &players()).unwrap();
    match message.transition.event {
        Some(StatsEvent::TeamSwitch(event)) => {
            assert_eq!(event.player.id, 0);
            assert_eq!(event.old_team, "red");
            assert_eq!(event.new_team, "blue");
        },
        other => panic!("unexpected {:?}", other),
    }
}

#[test]
fn try_handle_team_switch_to_the_same_team() {
    let text = r#"{"TYPE": "PLAYER_SWITCHTEAM", "DATA": {"KILLER": {"NAME": "Mocked Player", "STEAM_ID": "1234", "OLD_TEAM": "Red", "TEAM": "RED"}}}"#;
    let message = handle_zmq_msg(text, true, &players()).unwrap();
    assert!(message.transition.event.is_none());
}

#[test]
fn try_handle_other_message_changes_nothing() {
    let stats = JsonValue::Object(vec![("TYPE".into(), JsonValue::Str("PLAYER_MEDAL".into()))]);
    let transition = try_handle_zmq_msg(&stats, true, &players());
    assert!(transition.event.is_none());
    assert_eq!(transition.in_progress, true);
}

#[test]
fn player_lookup_by_steam_id_and_name() {
    let infos = players();
    assert_eq!(player_by_steam_id(&infos, 5678).map(|p| p.id), Some(2));
    assert_eq!(player_by_steam_id(&infos, 42).map(|p| p.id), None);
    assert_eq!(player_by_name(&infos, "Mocked Player").map(|p| p.name), Some("Mocked Player".to_string()));
    assert!(player_by_name(&infos, "mocked player").is_none());
}

#[test]
fn a_started_match_ends_with_its_report() {
    let start = handle_zmq_msg(r#"{"TYPE": "MATCH_STARTED", "DATA": {}}"#, false, &players()).unwrap();
    let report = handle_zmq_msg(r#"{"TYPE": "MATCH_REPORT", "DATA": {}}"#, start.transition.in_progress, &players()).unwrap();
    assert!(matches!(report.transition.event, Some(StatsEvent::GameEnd)));
    let second = handle_zmq_msg(r#"{"TYPE": "MATCH_REPORT", "DATA": {}}"#, report.transition.in_progress, &players()).unwrap();
    assert!(second.transition.event.is_none());
}
