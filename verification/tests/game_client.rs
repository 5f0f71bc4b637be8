use shinqlx::current_level::{CurrentLevel, LevelLocals};
use shinqlx::engine_error::QuakeLiveEngineError;
use shinqlx::game_client::{ClientPersistant, ClientSession, ExpandedStats, GClient, GameClient, PlayerState};
use shinqlx::quake_types::{
    clientConnected_t, pmtype_t, privileges_t, team_t, voteState_t, weapon_t, EF_DEAD, EF_KAMIKAZE, EF_TALK,
    MODELINDEX_KAMIKAZE, MODELINDEX_TELEPORTER, PERS_ROUND_SCORE, STAT_ARMOR, STAT_HOLDABLE_ITEM,
};

const PW_QUAD: usize = 4;
const PW_BATTLESUIT: usize = 5;
const PW_HASTE: usize = 6;
const PW_INVIS: usize = 7;
const PW_REGEN: usize = 8;
const PW_INVULNERABILITY: usize = 10;

fn default_player_state() -> PlayerState {
    PlayerState {
        clientNum: 0,
        pm_type: pmtype_t::PM_NORMAL,
        eFlags: 0,
        weapon: 0,
        stats: [0; 16],
        persistant: [0; 16],
        powerups: [0; 16],
        ammo: [0; 16],
        ping: 0,
    }
}

fn default_gclient() -> GClient {
    GClient {
        ps: default_player_state(),
        pers: ClientPersistant {
            connected: clientConnected_t::CON_DISCONNECTED,
            netname: [0; 40],
            enterTime: 0,
            voteState: voteState_t::VOTE_NONE,
        },
        sess: ClientSession { sessionTeam: team_t::TEAM_FREE, privileges: privileges_t::PRIV_NONE },
        noclip: false,
        invulnerabilityTime: 0,
        expandedStats: ExpandedStats { numKills: 0, numDeaths: 0, totalDamageDealt: 0, totalDamageTaken: 0 },
    }
}

fn game_client_of(gclient: GClient) -> GameClient {
    GameClient::try_from(Some(gclient)).unwrap()
}

fn level_at(time: i32) -> CurrentLevel {
    CurrentLevel::try_from(Some(LevelLocals { time })).unwrap()
}

#[test]
fn game_client_try_from_null_results_in_error() {
    assert_eq!(
        GameClient::try_from(None),
        Err(QuakeLiveEngineError::NullPointerPassed("null pointer passed".into()))
    );
}

#[test]
fn game_client_try_from_valid_value_result() {
    let game_client = GameClient::try_from(Some(default_gclient()));
    assert_eq!(game_client.is_ok(), true);
}

#[test]
fn game_client_get_client_num() {
    let mut gclient = default_gclient();
    gclient.ps.clientNum = 42;
    assert_eq!(game_client_of(gclient).get_client_num(), 42);
}

#[test]
fn game_client_get_connection_state() {
    let mut gclient = default_gclient();
    gclient.pers.connected = clientConnected_t::CON_CONNECTING;
    assert_eq!(game_client_of(gclient).get_connection_state(), clientConnected_t::CON_CONNECTING);
}

#[test]
fn game_client_get_player_name() {
    let mut gclient = default_gclient();
    for (index, byte) in "awesome player".bytes().enumerate() {
        gclient.pers.netname[index] = byte;
    }
    assert_eq!(game_client_of(gclient).get_player_name(), "awesome player");
}

#[test]
fn game_client_get_team() {
    let mut gclient = default_gclient();
    gclient.sess.sessionTeam = team_t::TEAM_BLUE;
    assert_eq!(game_client_of(gclient).get_team(), team_t::TEAM_BLUE);
}

#[test]
fn game_client_get_privileges() {
    let mut gclient = default_gclient();
    gclient.sess.privileges = privileges_t::PRIV_MOD;
    assert_eq!(game_client_of(gclient).get_privileges(), privileges_t::PRIV_MOD);
}

#[test]
fn game_client_remove_kamikaze_flag_with_no_flag_set() {
    let mut gclient = default_gclient();
    gclient.ps.eFlags = 0;
    let mut game_client = game_client_of(gclient);
    game_client.remove_kamikaze_flag();
    assert_eq!(game_client.game_client.ps.eFlags, 0);
}

#[test]
fn game_client_remove_kamikaze_flag_removes_kamikaze_flag() {
    let mut gclient = default_gclient();
    gclient.ps.eFlags = 513;
    let mut game_client = game_client_of(gclient);
    game_client.remove_kamikaze_flag();
    assert_eq!(game_client.game_client.ps.eFlags, 1);
}

#[test]
fn game_client_set_privileges_for_every_privilege() {
    for privilege in [
        privileges_t::PRIV_NONE,
        privileges_t::PRIV_ADMIN,
        privileges_t::PRIV_ROOT,
        privileges_t::PRIV_MOD,
        privileges_t::PRIV_BANNED,
    ] {
        let mut game_client = game_client_of(default_gclient());
        game_client.set_privileges(privilege);
        assert_eq!(game_client.get_privileges(), privilege);
    }
}

#[test]
fn game_client_is_alive() {
    let mut gclient = default_gclient();
    gclient.ps.pm_type = pmtype_t::PM_NORMAL;
    assert_eq!(game_client_of(gclient).is_alive(), true);
}

#[test]
fn game_client_is_dead() {
    let mut gclient = default_gclient();
    gclient.ps.pm_type = pmtype_t::PM_DEAD;
    assert_eq!(game_client_of(gclient).is_alive(), false);
}

#[test]
fn game_client_get_armor() {
    let mut gclient = default_gclient();
    gclient.ps.stats[STAT_ARMOR] = 69;
    assert_eq!(game_client_of(gclient).get_armor(), 69);
}

#[test]
fn game_client_set_armor() {
    let mut game_client = game_client_of(default_gclient());
    game_client.set_armor(42);
    assert_eq!(game_client.get_armor(), 42);
}

#[test]
fn game_client_get_noclip() {
    let mut gclient = default_gclient();
    gclient.noclip = false;
    assert_eq!(game_client_of(gclient).get_noclip(), false);
}

#[test]
fn game_client_set_noclip() {
    let mut game_client = game_client_of(default_gclient());
    game_client.set_noclip(true);
    assert_eq!(game_client.get_noclip(), true);
}

#[test]
fn game_client_disable_noclip() {
    let mut gclient = default_gclient();
    gclient.noclip = true;
    let mut game_client = game_client_of(gclient);
    game_client.set_noclip(false);
    assert_eq!(game_client.get_noclip(), false);
}

#[test]
fn game_client_set_weapon_for_every_weapon() {
    for weapon in [
        weapon_t::WP_NONE,
        weapon_t::WP_GAUNTLET,
        weapon_t::WP_MACHINEGUN,
        weapon_t::WP_SHOTGUN,
        weapon_t::WP_GRENADE_LAUNCHER,
        weapon_t::WP_ROCKET_LAUNCHER,
        weapon_t::WP_PLASMAGUN,
        weapon_t::WP_RAILGUN,
        weapon_t::WP_LIGHTNING,
        weapon_t::WP_BFG,
        weapon_t::WP_GRAPPLING_HOOK,
        weapon_t::WP_CHAINGUN,
        weapon_t::WP_NAILGUN,
        weapon_t::WP_PROX_LAUNCHER,
        weapon_t::WP_HMG,
        weapon_t::WP_HANDS,
    ] {
        let mut game_client = game_client_of(default_gclient());
        game_client.set_weapon(weapon);
        assert_eq!(game_client.get_weapon(), weapon);
    }
}

#[test]
fn game_client_set_weapons() {
    let mut game_client = game_client_of(default_gclient());
    game_client.set_weapons([0, 0, 1, 0, 1, 1, 0, 0, 0, 0, 1, 0, 1, 1, 0]);
    assert_eq!(game_client.get_weapons(), [0, 0, 1, 0, 1, 1, 0, 0, 0, 0, 1, 0, 1, 1, 0]);
}

#[test]
fn game_client_set_ammos() {
    let mut game_client = game_client_of(default_gclient());
    game_client.set_ammos([10, 20, 31, 40, 51, 61, 70, 80, 90, 42, 69, -1, 1, 1, -1]);
    assert_eq!(game_client.get_ammos(), [10, 20, 31, 40, 51, 61, 70, 80, 90, 42, 69, -1, 1, 1, -1]);
}

#[test]
fn game_client_get_powerups_with_no_powerups() {
    let current_level = level_at(1234);
    let game_client = game_client_of(default_gclient());
    assert_eq!(game_client.get_powerups_internal(&current_level), [0; 6]);
}

#[test]
fn game_client_get_powerups_with_all_powerups_set() {
    let current_level = level_at(1234);
    let mut gclient = default_gclient();
    gclient.ps.powerups[PW_QUAD] = 1235;
    gclient.ps.powerups[PW_BATTLESUIT] = 1236;
    gclient.ps.powerups[PW_HASTE] = 1237;
    gclient.ps.powerups[PW_INVIS] = 1238;
    gclient.ps.powerups[PW_REGEN] = 1239;
    gclient.ps.powerups[PW_INVULNERABILITY] = 1240;
    let game_client = game_client_of(gclient);
    assert_eq!(game_client.get_powerups_internal(&current_level), [1, 2, 3, 4, 5, 6]);
}

#[test]
fn game_client_set_powerups() {
    let current_level = level_at(1000);
    let mut game_client = game_client_of(default_gclient());
    game_client.set_powerups_internal([11, 12, 13, 14, 15, 16], &current_level);
    assert_eq!(game_client.get_powerups_internal(&current_level), [11, 12, 13, 14, 15, 16]);
}

#[test]
fn game_client_set_powerups_deleting_all_powerups() {
    let current_level = level_at(1000);
    let mut gclient = default_gclient();
    gclient.ps.powerups[PW_QUAD] = 1235;
    gclient.ps.powerups[PW_BATTLESUIT] = 1236;
    gclient.ps.powerups[PW_HASTE] = 1237;
    gclient.ps.powerups[PW_INVIS] = 1238;
    gclient.ps.powerups[PW_REGEN] = 1239;
    gclient.ps.powerups[PW_INVULNERABILITY] = 1240;
    let mut game_client = game_client_of(gclient);
    game_client.set_powerups_internal([0, 0, 0, 0, 0, 0], &current_level);
    assert_eq!(game_client.get_powerups_internal(&current_level), [0, 0, 0, 0, 0, 0]);
}

#[test]
fn game_client_get_holdable() {
    let mut gclient = default_gclient();
    gclient.ps.stats[STAT_HOLDABLE_ITEM] = MODELINDEX_KAMIKAZE;
    assert_eq!(game_client_of(gclient).get_holdable(), MODELINDEX_KAMIKAZE);
}

#[test]
fn game_client_set_holdable() {
    let mut game_client = game_client_of(default_gclient());
    game_client.set_holdable(MODELINDEX_KAMIKAZE);
    assert_eq!(game_client.get_holdable(), MODELINDEX_KAMIKAZE);
    assert_eq!(game_client.game_client.ps.eFlags, EF_KAMIKAZE);
}

#[test]
fn game_client_set_holdable_removes_kamikaze_flag() {
    let mut gclient = default_gclient();
    gclient.ps.eFlags = 513;
    let mut game_client = game_client_of(gclient);
    game_client.set_holdable(MODELINDEX_TELEPORTER);
    assert_eq!(game_client.get_holdable(), MODELINDEX_TELEPORTER);
    assert_eq!(game_client.game_client.ps.eFlags, EF_DEAD);
}

#[test]
fn game_client_set_flight_values() {
    let mut game_client = game_client_of(default_gclient());
    game_client.set_flight([1, 2, 3, 4]);
    assert_eq!(game_client.get_current_flight_fuel(), 1);
    assert_eq!(game_client.get_max_flight_fuel(), 2);
    assert_eq!(game_client.get_flight_thrust(), 3);
    assert_eq!(game_client.get_flight_refuel(), 4);
}

#[test]
fn game_client_set_invulnerability() {
    let current_level = level_at(1234);
    let mut game_client = game_client_of(default_gclient());
    game_client.set_invulnerability_internal(10, &current_level);
    assert_eq!(game_client.game_client.invulnerabilityTime, 1244);
}

#[test]
fn game_client_is_chatting() {
    let mut gclient = default_gclient();
    gclient.ps.eFlags = EF_TALK;
    assert_eq!(game_client_of(gclient).is_chatting(), true);
}

#[test]
fn game_client_is_not_chatting() {
    let mut gclient = default_gclient();
    gclient.ps.eFlags = 0;
    assert_eq!(game_client_of(gclient).is_chatting(), false);
}

#[test]
fn game_client_is_frozen() {
    let mut gclient = default_gclient();
    gclient.ps.pm_type = pmtype_t::PM_FREEZE;
    assert_eq!(game_client_of(gclient).is_frozen(), true);
}

#[test]
fn game_client_is_not_frozen() {
    let mut gclient = default_gclient();
    gclient.ps.pm_type = pmtype_t::PM_NORMAL;
    assert_eq!(game_client_of(gclient).is_frozen(), false);
}

#[test]
fn game_client_get_score() {
    let mut gclient = default_gclient();
    gclient.ps.persistant[PERS_ROUND_SCORE] = 42;
    gclient.sess.sessionTeam = team_t::TEAM_RED;
    assert_eq!(game_client_of(gclient).get_score(), 42);
}

#[test]
fn game_client_get_score_of_spectator() {
    let mut gclient = default_gclient();
    gclient.ps.persistant[PERS_ROUND_SCORE] = 42;
    gclient.sess.sessionTeam = team_t::TEAM_SPECTATOR;
    assert_eq!(game_client_of(gclient).get_score(), 0);
}

#[test]
fn game_client_set_score() {
    let mut gclient = default_gclient();
    gclient.sess.sessionTeam = team_t::TEAM_BLUE;
    let mut game_client = game_client_of(gclient);
    game_client.set_score(21);
    assert_eq!(game_client.get_score(), 21);
}

#[test]
fn game_client_get_kills() {
    let mut gclient = default_gclient();
    gclient.expandedStats.numKills = 5;
    assert_eq!(game_client_of(gclient).get_kills(), 5);
}

#[test]
fn game_client_get_deaths() {
    let mut gclient = default_gclient();
    gclient.expandedStats.numDeaths = 69;
    assert_eq!(game_client_of(gclient).get_deaths(), 69);
}

#[test]
fn game_client_get_damage_dealt() {
    let mut gclient = default_gclient();
    gclient.expandedStats.totalDamageDealt = 666;
    assert_eq!(game_client_of(gclient).get_damage_dealt(), 666);
}

#[test]
fn game_client_get_damage_taken() {
    let mut gclient = default_gclient();
    gclient.expandedStats.totalDamageTaken = 1234;
    assert_eq!(game_client_of(gclient).get_damage_taken(), 1234);
}

#[test]
fn game_client_get_time_on_team() {
    let current_level = level_at(1234);
    let mut gclient = default_gclient();
    gclient.pers.enterTime = 1192;
    assert_eq!(game_client_of(gclient).get_time_on_team_internal(&current_level), 42);
}

#[test]
fn game_client_get_ping() {
    let mut gclient = default_gclient();
    gclient.ps.ping = 1;
    assert_eq!(game_client_of(gclient).get_ping(), 1);
}

#[test]
fn game_client_set_vote_pending() {
    let mut gclient = default_gclient();
    gclient.pers.voteState = voteState_t::VOTE_YES;
    let mut game_client = game_client_of(gclient);
    game_client.set_vote_pending();
    assert_eq!(game_client.game_client.pers.voteState, voteState_t::VOTE_PENDING);
}

#[test]
fn game_client_set_vote_state_to_no() {
    let mut gclient = default_gclient();
    gclient.pers.voteState = voteState_t::VOTE_PENDING;
    let mut game_client = game_client_of(gclient);
    game_client.set_vote_state(false);
    assert_eq!(game_client.game_client.pers.voteState, voteState_t::VOTE_NO);
}

#[test]
fn game_client_set_vote_state_to_yes() {
    let mut gclient = default_gclient();
    gclient.pers.voteState = voteState_t::VOTE_PENDING;
    let mut game_client = game_client_of(gclient);
    game_client.set_vote_state(true);
    assert_eq!(game_client.game_client.pers.voteState, voteState_t::VOTE_YES);
}

#[test]
fn game_client_spawn() {
    let mut gclient = default_gclient();
    gclient.ps.ping = 1;
    gclient.ps.pm_type = pmtype_t::PM_DEAD;
    let mut game_client = game_client_of(gclient);
    game_client.spawn();
    assert_eq!(game_client.game_client.ps.pm_type, pmtype_t::PM_NORMAL);
}

#[test]
fn game_client_powerup_time_left_is_counted_from_the_level_time() {
    let current_level = level_at(1234);
    let mut gclient = default_gclient();
    gclient.ps.powerups[PW_QUAD] = 6234;
    let game_client = game_client_of(gclient);
    assert_eq!(game_client.get_powerups_internal(&current_level), [5000, 0, 0, 0, 0, 0]);
}

#[test]
fn game_client_weapons_survive_a_round_trip() {
    let weapons = [1, 1, 1, 1, 1, 1, 1, 1, 1, 1, 1, 1, 1, 1, 1];
    let mut game_client = game_client_of(default_gclient());
    game_client.set_weapons(weapons);
    assert_eq!(game_client.get_weapons(), weapons);
    game_client.set_weapons([5, -3, 0, 0, 0, 0, 0, 0, 0, 0, 0, 0, 0, 0, 2]);
    assert_eq!(game_client.get_weapons(), [1, 0, 0, 0, 0, 0, 0, 0, 0, 0, 0, 0, 0, 0, 1]);
}
