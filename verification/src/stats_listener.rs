//! The listener of the match statistics feed: its set-up from the server's
//! settings, and what it does with each message of the feed.
use vstd::prelude::*;

use crate::json::{
    as_text, get_member, get_member2, get_member3, json_is_null, json_member, json_member2, json_member3,
    json_text, json_parse_outcome, parse_json, JsonValue,
};
use crate::player_info::{
    law_player_with_name_is_first, law_player_with_steam_id_is_first, player_by_name, player_by_steam_id, player_of,
    player_with_name, player_with_steam_id, Player, PlayerInfo,
};

verus! {

/// Whether every character of `s` is an ASCII decimal digit.
pub open spec fn all_decimal_digits(s: Seq<char>) -> bool {
    forall|i: int| 0 <= i < s.len() ==> '0' <= #[trigger] s[i] && s[i] <= '9'
}

/// The value of a string of decimal digits.
pub open spec fn digits_value(s: Seq<char>) -> int
    decreases s.len(),
{
    if s.len() == 0 {
        0
    } else {
        digits_value(s.drop_last()) * 10 + (s.last() as int - '0' as int)
    }
}

/// The value of `s` read as a 64-bit signed integer: an optional `+` or `-`
/// and at least one decimal digit, in the range of the type; `None` otherwise.
pub open spec fn parsed_i64(s: Seq<char>) -> Option<int> {
    let negative = s.len() > 0 && s[0] == '-';
    let digits = if s.len() > 0 && (s[0] == '-' || s[0] == '+') {
        s.skip(1)
    } else {
        s
    };
    if digits.len() == 0 || !all_decimal_digits(digits) {
        None
    } else {
        let value = if negative {
            -digits_value(digits)
        } else {
            digits_value(digits)
        };
        if i64::MIN <= value <= i64::MAX {
            Some(value)
        } else {
            None
        }
    }
}

/// Reads a 64-bit signed integer (calls `str::parse::<i64>`). Its contract
/// states the documented grammar: an optional sign, then decimal digits, in range.
#[verifier::external_body]
fn parse_i64(s: &str) -> (r: Option<i64>)
    ensures
        match r {
            Some(v) => parsed_i64(s@) == Some(v as int),
            None => parsed_i64(s@) is None,
        },
{
    s.parse::<i64>().ok()
}

/// What lowercasing `s` gives, by Unicode's rules.
pub uninterp spec fn lowercase_of(s: Seq<char>) -> Seq<char>;

/// The text `s` with each ASCII capital letter made small.
pub open spec fn ascii_lowercase(s: Seq<char>) -> Seq<char> {
    s.map_values(|c: char| if 'A' <= c && c <= 'Z' { ((c as u32) + 32) as char } else { c })
}

/// Lowercases a text (calls `str::to_lowercase`). The contract names the
/// result; of an ASCII text it claims, as the documentation of the Unicode
/// mapping gives, that each capital letter is made small and nothing else
/// changes.
#[verifier::external_body]
fn to_lowercase(s: &str) -> (r: String)
    ensures
        r@ == lowercase_of(s@),
        vstd::utf8::is_ascii_chars(s@) ==> r@ == ascii_lowercase(s@),
{
    s.to_lowercase()
}

/// The Steam id written in `text`, where it is a positive 64-bit integer.
pub open spec fn positive_steam_id(text: Option<Seq<char>>) -> Option<i64> {
    match text {
        Some(t) => match parsed_i64(t) {
            Some(v) => if v > 0 {
                Some(v as i64)
            } else {
                None
            },
            None => None,
        },
        None => None,
    }
}

/// The Steam id in a JSON string value, where it holds a positive 64-bit integer.
pub fn steam_id_of(value: Option<&JsonValue>) -> (r: Option<i64>)
    ensures
        r == positive_steam_id(
            match value {
                Some(v) => json_text(Some(*v)),
                None => None,
            },
        ),
{
    match as_text(value) {
        None => None,
        Some(text) => match parse_i64(text.as_str()) {
            Some(v) => if v > 0 {
                Some(v)
            } else {
                None
            },
            None => None,
        },
    }
}

/// The settings of the server that the listener reads: each is `None` where
/// the server has no such setting.
pub struct StatsSettings {
    /// The integer value of `zmq_stats_enable`.
    pub zmq_stats_enable: Option<i32>,
    pub zmq_stats_ip: Option<String>,
    pub zmq_stats_port: Option<String>,
    pub net_port: Option<String>,
    pub zmq_stats_password: Option<String>,
}

/// The listener of the match statistics feed.
#[derive(Debug)]
pub struct StatsListener {
    pub done: bool,
    pub address: String,
    pub password: String,
}

/// The host of the feed: the `zmq_stats_ip` setting where it is set and not
/// empty, the local host otherwise.
pub open spec fn stats_host(settings: StatsSettings) -> Seq<char> {
    match settings.zmq_stats_ip {
        Some(ip) => if ip@.len() > 0 {
            ip@
        } else {
            "127.0.0.1"@
        },
        None => "127.0.0.1"@,
    }
}

/// The port of the feed: the `zmq_stats_port` setting, else the `net_port`
/// setting, else nothing.
pub open spec fn stats_port(settings: StatsSettings) -> Seq<char> {
    match settings.zmq_stats_port {
        Some(port) => port@,
        None => match settings.net_port {
            Some(port) => port@,
            None => Seq::empty(),
        },
    }
}

/// The next step of the loop that receives the feed.
#[derive(Debug, PartialEq, Eq, Structural)]
pub enum PollStep {
    Stop,
    PollAgain,
    Receive,
}

/// Why the listener could not be set up.
#[derive(Debug, PartialEq, Eq)]
pub enum StatsListenerError {
    /// No engine is loaded.
    EnvironmentError(String),
    /// A message of the feed could not be read.
    IOError(String),
}

impl StatsListener {
    /// Sets up the listener from the server's settings: an engine must be
    /// loaded; where the feed is off (the enabling setting missing or zero) the
    /// listener is done from the start and has no address and no password;
    /// otherwise it listens at `tcp://host:port` with the feed's password.
    pub fn py_new(engine_loaded: bool, settings: &StatsSettings) -> (r: Result<StatsListener, StatsListenerError>)
        ensures
            !engine_loaded ==> (r matches Err(StatsListenerError::EnvironmentError(msg)) && msg@
                == "main quake live engine not set"@),
            engine_loaded && (settings.zmq_stats_enable is None || settings.zmq_stats_enable == Some(0i32)) ==> (
            r matches Ok(listener) && listener.done && listener.address@ == Seq::<char>::empty()
                && listener.password@ == Seq::<char>::empty()),
            engine_loaded && !(settings.zmq_stats_enable is None || settings.zmq_stats_enable == Some(0i32))
                ==> (r matches Ok(listener) && !listener.done && listener.address@ == "tcp://"@ + stats_host(
                *settings,
            ) + ":"@ + stats_port(*settings) && listener.password@ == match settings.zmq_stats_password {
                Some(p) => p@,
                None => Seq::<char>::empty(),
            }),
        // The configured statistics port wins over the game's port; the game's
        // port only stands in where none is configured.
        engine_loaded && !(settings.zmq_stats_enable is None || settings.zmq_stats_enable == Some(0i32)) ==> (
        r matches Ok(listener) && listener.address@ == "tcp://"@ + stats_host(*settings) + ":"@ + match settings.zmq_stats_port {
            Some(port) => port@,
            None => match settings.net_port {
                Some(port) => port@,
                None => Seq::<char>::empty(),
            },
        }),
    {
        if !engine_loaded {
            return Err(StatsListenerError::EnvironmentError(String::from_str("main quake live engine not set")));
        }
        let enabled = match settings.zmq_stats_enable {
            None => false,
            Some(value) => value != 0,
        };
        if !enabled {
            return Ok(StatsListener { done: true, address: String::new(), password: String::new() });
        }
        let mut address = String::from_str("tcp://");
        match &settings.zmq_stats_ip {
            Some(ip) => {
                if ip.unicode_len() > 0 {
                    address.append(ip.as_str());
                } else {
                    address.append("127.0.0.1");
                }
            },
            None => address.append("127.0.0.1"),
        }
        address.append(":");
        match &settings.zmq_stats_port {
            Some(port) => address.append(port.as_str()),
            None => match &settings.net_port {
                Some(port) => address.append(port.as_str()),
                None => {},
            },
        }
        let password = match &settings.zmq_stats_password {
            Some(p) => p.clone(),
            None => String::new(),
        };
        Ok(StatsListener { done: false, address, password })
    }

    /// Whether the listener is done.
    pub fn get_done(&self) -> (r: bool)
        ensures
            r == self.done,
    {
        self.done
    }

    /// Receives until the listener is done: what the receiving loop does
    /// after a poll of the feed that reported `polled` messages ready (`None`
    /// where the poll failed). It stops once the listener is done, receives
    /// where exactly one message is ready, and polls again otherwise.
    pub fn keep_receiving(&self, polled: Option<i32>) -> (r: PollStep)
        ensures
            r == if self.done {
                PollStep::Stop
            } else if polled == Some(1i32) {
                PollStep::Receive
            } else {
                PollStep::PollAgain
            },
    {
        if self.done {
            PollStep::Stop
        } else {
            match polled {
                Some(1) => PollStep::Receive,
                _ => PollStep::PollAgain,
            }
        }
    }

    /// Marks the listener as done.
    pub fn stop(&mut self)
        ensures
            final(self).done,
            final(self).address == old(self).address,
            final(self).password == old(self).password,
    {
        self.done = true;
    }
}

/// A player's death as the feed reports it: the victim and, where the feed
/// names one that is on the server, the killer. The event's data is the
/// message's `DATA` member.
#[derive(Debug)]
pub struct DeathEvent {
    pub victim: Player,
    pub killer: Option<Player>,
}

/// A player's change of team as the feed reports it, teams lowercased.
#[derive(Debug)]
pub struct TeamSwitchEvent {
    pub player: Player,
    pub old_team: String,
    pub new_team: String,
}

/// The event that a message of the feed is handed on as, after the message
/// itself was handed to the statistics handlers. Each is handed on with the
/// message's `DATA` member.
#[derive(Debug)]
pub enum StatsEvent {
    GameStart,
    RoundEnd,
    GameEnd,
    /// Handed to the death handlers, and to the kill handlers where it has a killer.
    Death(DeathEvent),
    TeamSwitch(TeamSwitchEvent),
}

/// What handling a message does: the event to hand on, whether a match is in
/// progress afterwards, and whether it is where handing on the event fails.
#[derive(Debug)]
pub struct StatsTransition {
    pub event: Option<StatsEvent>,
    pub in_progress: bool,
    pub in_progress_if_dispatch_fails: bool,
}

/// The kinds of messages of the feed.
#[derive(PartialEq, Eq, Structural)]
pub enum StatsMessageKind {
    MatchStarted,
    RoundOver,
    MatchReport,
    PlayerDeath,
    PlayerSwitchTeam,
    Other,
}

/// The kind of a message whose `TYPE` member has the text `kind`.
pub open spec fn message_kind(kind: Option<Seq<char>>) -> StatsMessageKind {
    match kind {
        Some(k) => if k == "MATCH_STARTED"@ {
            StatsMessageKind::MatchStarted
        } else if k == "ROUND_OVER"@ {
            StatsMessageKind::RoundOver
        } else if k == "MATCH_REPORT"@ {
            StatsMessageKind::MatchReport
        } else if k == "PLAYER_DEATH"@ {
            StatsMessageKind::PlayerDeath
        } else if k == "PLAYER_SWITCHTEAM"@ {
            StatsMessageKind::PlayerSwitchTeam
        } else {
            StatsMessageKind::Other
        },
        None => StatsMessageKind::Other,
    }
}

/// The text at `DATA`.`who`.`field` of a message.
pub open spec fn data_text(stats: JsonValue, who: Seq<char>, field: Seq<char>) -> Option<Seq<char>> {
    json_text(json_member3(stats, "DATA"@, who, field))
}

/// The player that the feed names by `steam_id` where it gives one, by
/// `name` otherwise.
pub open spec fn named_player(players: Seq<Option<PlayerInfo>>, steam_id: Option<i64>, name: Seq<char>) -> Option<
    Player,
> {
    match steam_id {
        Some(id) => player_with_steam_id(players, id),
        None => player_with_name(players, name),
    }
}

/// The death event of a `PLAYER_DEATH` message, where the victim has a name
/// and is on the server.
pub open spec fn death_event_matches(stats: JsonValue, players: Seq<Option<PlayerInfo>>, r: Option<DeathEvent>) -> bool {
    let victim_id = positive_steam_id(data_text(stats, "VICTIM"@, "STEAM_ID"@));
    let killer_is_null = json_is_null(json_member2(stats, "DATA"@, "KILLER"@));
    let killer_id = if killer_is_null {
        None
    } else {
        positive_steam_id(data_text(stats, "KILLER"@, "STEAM_ID"@))
    };
    let killer_name = if killer_is_null {
        None
    } else {
        data_text(stats, "KILLER"@, "NAME"@)
    };
    match data_text(stats, "VICTIM"@, "NAME"@) {
        None => r is None,
        Some(victim_name) => match named_player(players, victim_id, victim_name) {
            None => r is None,
            Some(victim) => r matches Some(event) && event.victim == victim && event.killer == match killer_id {
                Some(id) => player_with_steam_id(players, id),
                None => match killer_name {
                    Some(n) => player_with_name(players, n),
                    None => None,
                },
            },
        },
    }
}

/// The team switch event of a `PLAYER_SWITCHTEAM` message, where the player
/// has a name and both teams, the teams differ once lowercased, and the
/// player is on the server.
pub open spec fn team_switch_matches(stats: JsonValue, players: Seq<Option<PlayerInfo>>, r: Option<TeamSwitchEvent>) -> bool {
    let steam_id = positive_steam_id(data_text(stats, "KILLER"@, "STEAM_ID"@));
    match (data_text(stats, "KILLER"@, "NAME"@), data_text(stats, "KILLER"@, "OLD_TEAM"@), data_text(stats, "KILLER"@, "TEAM"@)) {
        (Some(name), Some(old_team), Some(new_team)) => if lowercase_of(old_team) == lowercase_of(new_team) {
            r is None
        } else {
            match named_player(players, steam_id, name) {
                None => r is None,
                Some(player) => r matches Some(event) && event.player == player && event.old_team@ == lowercase_of(
                    old_team,
                ) && event.new_team@ == lowercase_of(new_team),
            }
        },
        _ => r is None,
    }
}

/// The event for the player death message `stats`, with `players` the
/// players on the server.
pub fn handle_player_death_event(stats: &JsonValue, players: &Vec<Option<PlayerInfo>>) -> (r: Option<DeathEvent>)
    ensures
        death_event_matches(*stats, players@, r),
        // There is an event exactly where the victim has a name and is on the
        // server: found by its positive Steam id where it has one, by name otherwise.
        r is Some <==> match json_text(json_member3(*stats, "DATA"@, "VICTIM"@, "NAME"@)) {
            None => false,
            Some(name) => match positive_steam_id(json_text(json_member3(*stats, "DATA"@, "VICTIM"@, "STEAM_ID"@))) {
                Some(id) => player_with_steam_id(players@, id) is Some,
                None => player_with_name(players@, name) is Some,
            },
        },
        r is Some ==> r->0.victim == match positive_steam_id(
            json_text(json_member3(*stats, "DATA"@, "VICTIM"@, "STEAM_ID"@)),
        ) {
            Some(id) => player_with_steam_id(players@, id)->0,
            None => player_with_name(players@, json_text(json_member3(*stats, "DATA"@, "VICTIM"@, "NAME"@))->0)->0,
        },
        // A null or missing killer is none.
        r is Some && json_is_null(json_member2(*stats, "DATA"@, "KILLER"@)) ==> r->0.killer is None,
        // A killer with a positive Steam id is the first player with that id.
        r is Some && !json_is_null(json_member2(*stats, "DATA"@, "KILLER"@)) && positive_steam_id(
            json_text(json_member3(*stats, "DATA"@, "KILLER"@, "STEAM_ID"@)),
        ) is Some ==> r->0.killer == player_with_steam_id(
            players@,
            positive_steam_id(json_text(json_member3(*stats, "DATA"@, "KILLER"@, "STEAM_ID"@)))->0,
        ),
        // A killer without one (a bot, say) is the first player with its name.
        r is Some && !json_is_null(json_member2(*stats, "DATA"@, "KILLER"@)) && positive_steam_id(
            json_text(json_member3(*stats, "DATA"@, "KILLER"@, "STEAM_ID"@)),
        ) is None ==> r->0.killer == match json_text(json_member3(*stats, "DATA"@, "KILLER"@, "NAME"@)) {
            Some(name) => player_with_name(players@, name),
            None => None,
        },
{
    let victim_steam_id = steam_id_of(get_member3(stats, "DATA", "VICTIM", "STEAM_ID"));
    let victim_name = match as_text(get_member3(stats, "DATA", "VICTIM", "NAME")) {
        None => return None,
        Some(name) => name,
    };
    let killer_is_null = match get_member2(stats, "DATA", "KILLER") {
        None => true,
        Some(JsonValue::Null) => true,
        Some(_) => false,
    };
    let (killer_steam_id, killer_name) = if killer_is_null {
        (None, None)
    } else {
        (
            steam_id_of(get_member3(stats, "DATA", "KILLER", "STEAM_ID")),
            as_text(get_member3(stats, "DATA", "KILLER", "NAME")),
        )
    };
    dispatch_player_death_events(victim_steam_id, &victim_name, killer_steam_id, killer_name, players)
}

/// The death event for a victim named by `opt_victim_steam_id` or
/// `victim_name` and a killer named by `opt_killer_steam_id` or
/// `opt_killer_name`: none where the victim is not on the server.
pub fn dispatch_player_death_events(
    opt_victim_steam_id: Option<i64>,
    victim_name: &String,
    opt_killer_steam_id: Option<i64>,
    opt_killer_name: Option<String>,
    players: &Vec<Option<PlayerInfo>>,
) -> (r: Option<DeathEvent>)
    ensures
        match named_player(players@, opt_victim_steam_id, victim_name@) {
            None => r is None,
            Some(victim) => r matches Some(event) && event.victim == victim && event.killer == match opt_killer_steam_id {
                Some(id) => player_with_steam_id(players@, id),
                None => match opt_killer_name {
                    Some(n) => player_with_name(players@, n@),
                    None => None,
                },
            },
        },
{
    let victim = match opt_victim_steam_id {
        Some(id) => player_by_steam_id(players, id),
        None => player_by_name(players, victim_name.as_str()),
    };
    let victim = match victim {
        None => return None,
        Some(v) => v,
    };
    let killer = match opt_killer_steam_id {
        Some(id) => player_by_steam_id(players, id),
        None => match opt_killer_name {
            Some(name) => player_by_name(players, name.as_str()),
            None => None,
        },
    };
    Some(DeathEvent { victim, killer })
}

/// The event for the team switch message `stats`, with `players` the
/// players on the server.
pub fn handle_team_switch_event(stats: &JsonValue, players: &Vec<Option<PlayerInfo>>) -> (r: Option<TeamSwitchEvent>)
    ensures
        team_switch_matches(*stats, players@, r),
        // A switch is reported only where the player has a name and both
        // teams, and the teams differ once lowercased.
        r is Some ==> json_text(json_member3(*stats, "DATA"@, "KILLER"@, "NAME"@)) is Some && json_text(
            json_member3(*stats, "DATA"@, "KILLER"@, "OLD_TEAM"@),
        ) is Some && json_text(json_member3(*stats, "DATA"@, "KILLER"@, "TEAM"@)) is Some && r->0.old_team@
            == lowercase_of(json_text(json_member3(*stats, "DATA"@, "KILLER"@, "OLD_TEAM"@))->0) && r->0.new_team@
            == lowercase_of(json_text(json_member3(*stats, "DATA"@, "KILLER"@, "TEAM"@))->0) && r->0.old_team@
            != r->0.new_team@,
        // The player is found by its positive Steam id where it has one, by name otherwise.
        r is Some ==> r->0.player == match positive_steam_id(
            json_text(json_member3(*stats, "DATA"@, "KILLER"@, "STEAM_ID"@)),
        ) {
            Some(id) => player_with_steam_id(players@, id)->0,
            None => player_with_name(players@, json_text(json_member3(*stats, "DATA"@, "KILLER"@, "NAME"@))->0)->0,
        },
        // Where all of that holds and the player is on the server, it is reported.
        ({
            let name = json_text(json_member3(*stats, "DATA"@, "KILLER"@, "NAME"@));
            let old_team = json_text(json_member3(*stats, "DATA"@, "KILLER"@, "OLD_TEAM"@));
            let new_team = json_text(json_member3(*stats, "DATA"@, "KILLER"@, "TEAM"@));
            let found = match positive_steam_id(json_text(json_member3(*stats, "DATA"@, "KILLER"@, "STEAM_ID"@))) {
                Some(id) => player_with_steam_id(players@, id) is Some,
                None => name is Some && player_with_name(players@, name->0) is Some,
            };
            name is Some && old_team is Some && new_team is Some && lowercase_of(old_team->0) != lowercase_of(
                new_team->0,
            ) && found ==> r is Some
        }),
{
    let steam_id = steam_id_of(get_member3(stats, "DATA", "KILLER", "STEAM_ID"));
    let name = match as_text(get_member3(stats, "DATA", "KILLER", "NAME")) {
        None => return None,
        Some(n) => n,
    };
    let old_team = match as_text(get_member3(stats, "DATA", "KILLER", "OLD_TEAM")) {
        None => return None,
        Some(t) => t,
    };
    let new_team = match as_text(get_member3(stats, "DATA", "KILLER", "TEAM")) {
        None => return None,
        Some(t) => t,
    };
    let old_lower = to_lowercase(old_team.as_str());
    let new_lower = to_lowercase(new_team.as_str());
    if old_lower == new_lower {
        return None;
    }
    dispatch_team_switch_event(steam_id, &name, old_lower, new_lower, players)
}

/// The team switch event for the player named by `opt_steam_id` or `name`:
/// none where the player is not on the server.
pub fn dispatch_team_switch_event(
    opt_steam_id: Option<i64>,
    name: &String,
    old_team: String,
    new_team: String,
    players: &Vec<Option<PlayerInfo>>,
) -> (r: Option<TeamSwitchEvent>)
    ensures
        match named_player(players@, opt_steam_id, name@) {
            None => r is None,
            Some(player) => r matches Some(event) && event.player == player && event.old_team == old_team
                && event.new_team == new_team,
        },
{
    let player = match opt_steam_id {
        Some(id) => player_by_steam_id(players, id),
        None => player_by_name(players, name.as_str()),
    };
    match player {
        None => None,
        Some(p) => Some(TeamSwitchEvent { player: p, old_team, new_team }),
    }
}

/// What handling the message `stats` in state `in_progress`, with `players`
/// on the server, gives: see `try_handle_zmq_msg`.
pub open spec fn stats_transition_matches(
    stats: JsonValue,
    in_progress: bool,
    players: Seq<Option<PlayerInfo>>,
    r: StatsTransition,
) -> bool {
    match message_kind(json_text(json_member(stats, "TYPE"@))) {
        StatsMessageKind::MatchStarted => r.in_progress && r.in_progress_if_dispatch_fails && r.event
            == Some(StatsEvent::GameStart),
        StatsMessageKind::RoundOver => r.in_progress == in_progress && r.in_progress_if_dispatch_fails == in_progress
            && r.event == Some(StatsEvent::RoundEnd),
        StatsMessageKind::MatchReport => !r.in_progress && r.in_progress_if_dispatch_fails == in_progress && r.event
            == if in_progress {
            Some(StatsEvent::GameEnd)
        } else {
            None
        },
        StatsMessageKind::PlayerDeath => r.in_progress == in_progress && r.in_progress_if_dispatch_fails == in_progress
            && death_event_matches(
            stats,
            players,
            match r.event {
                Some(StatsEvent::Death(event)) => Some(event),
                _ => None,
            },
        ) && (r.event is None || r.event is Some && r.event->0 is Death),
        StatsMessageKind::PlayerSwitchTeam => r.in_progress == in_progress && r.in_progress_if_dispatch_fails
            == in_progress && team_switch_matches(
            stats,
            players,
            match r.event {
                Some(StatsEvent::TeamSwitch(event)) => Some(event),
                _ => None,
            },
        ) && (r.event is None || r.event is Some && r.event->0 is TeamSwitch),
        StatsMessageKind::Other => r.in_progress == in_progress && r.in_progress_if_dispatch_fails == in_progress
            && r.event is None,
    }
}

/// What the message `stats` leads to, once it was handed to the statistics
/// handlers, with `in_progress` telling whether a match is running and
/// `players` the players on the server: a started match is in progress (also
/// where handing on its start fails) and handed on; a round end is handed
/// on; a match report is handed on only for a match in progress, and ends it
/// where handing it on does not fail; deaths and team switches are handed on
/// as their events; any other message changes nothing.
pub fn try_handle_zmq_msg(stats: &JsonValue, in_progress: bool, players: &Vec<Option<PlayerInfo>>) -> (r: StatsTransition)
    ensures
        stats_transition_matches(*stats, in_progress, players@, r),
        // A started match is in progress and its start is handed on.
        json_text(json_member(*stats, "TYPE"@)) == Some("MATCH_STARTED"@) ==> r.in_progress
            && r.in_progress_if_dispatch_fails && r.event matches Some(StatsEvent::GameStart),
        // A round end is handed on and changes nothing else.
        json_text(json_member(*stats, "TYPE"@)) == Some("ROUND_OVER"@) ==> r.in_progress == in_progress
            && r.in_progress_if_dispatch_fails == in_progress && r.event matches Some(StatsEvent::RoundEnd),
        // A match report ends the match; it is handed on only for a match in progress.
        json_text(json_member(*stats, "TYPE"@)) == Some("MATCH_REPORT"@) ==> !r.in_progress && (r.event matches Some(
            StatsEvent::GameEnd,
        )) == in_progress && r.in_progress_if_dispatch_fails == in_progress && (r.event is None || r.event matches Some(
            StatsEvent::GameEnd,
        )),
        // Deaths and team switches leave the match as it is.
        json_text(json_member(*stats, "TYPE"@)) == Some("PLAYER_DEATH"@) ==> r.in_progress == in_progress && (r.event is None
            || r.event matches Some(StatsEvent::Death(_))),
        json_text(json_member(*stats, "TYPE"@)) == Some("PLAYER_SWITCHTEAM"@) ==> r.in_progress == in_progress && (
        r.event is None || r.event matches Some(StatsEvent::TeamSwitch(_))),
        // Any other message hands nothing on and changes nothing.
        !(json_text(json_member(*stats, "TYPE"@)) == Some("MATCH_STARTED"@) || json_text(json_member(*stats, "TYPE"@))
            == Some("ROUND_OVER"@) || json_text(json_member(*stats, "TYPE"@)) == Some("MATCH_REPORT"@) || json_text(
            json_member(*stats, "TYPE"@),
        ) == Some("PLAYER_DEATH"@) || json_text(json_member(*stats, "TYPE"@)) == Some("PLAYER_SWITCHTEAM"@)) ==> r.event
            is None && r.in_progress == in_progress && r.in_progress_if_dispatch_fails == in_progress,
{
    proof {
        reveal_strlit("MATCH_STARTED");
        reveal_strlit("ROUND_OVER");
        reveal_strlit("MATCH_REPORT");
        reveal_strlit("PLAYER_DEATH");
        reveal_strlit("PLAYER_SWITCHTEAM");
        assert("ROUND_OVER"@.len() != "MATCH_STARTED"@.len());
        assert("MATCH_REPORT"@.len() != "MATCH_STARTED"@.len() && "MATCH_REPORT"@.len() != "ROUND_OVER"@.len());
        assert("PLAYER_DEATH"@[0] != "MATCH_STARTED"@[0] && "PLAYER_DEATH"@[0] != "ROUND_OVER"@[0]);
        assert("PLAYER_DEATH"@[0] != "MATCH_REPORT"@[0]);
        assert("PLAYER_SWITCHTEAM"@[0] != "MATCH_STARTED"@[0] && "PLAYER_SWITCHTEAM"@[0] != "ROUND_OVER"@[0]);
        assert("PLAYER_SWITCHTEAM"@[0] != "MATCH_REPORT"@[0]);
        assert("PLAYER_SWITCHTEAM"@.len() != "PLAYER_DEATH"@.len());
    }
    let kind = match as_text(get_member(stats, "TYPE")) {
        None => StatsMessageKind::Other,
        Some(k) => message_kind_of(&k),
    };
    match kind {
        StatsMessageKind::MatchStarted => StatsTransition {
            event: Some(StatsEvent::GameStart),
            in_progress: true,
            in_progress_if_dispatch_fails: true,
        },
        StatsMessageKind::RoundOver => StatsTransition {
            event: Some(StatsEvent::RoundEnd),
            in_progress,
            in_progress_if_dispatch_fails: in_progress,
        },
        StatsMessageKind::MatchReport => {
            if in_progress {
                StatsTransition { event: Some(StatsEvent::GameEnd), in_progress: false, in_progress_if_dispatch_fails: true }
            } else {
                StatsTransition { event: None, in_progress: false, in_progress_if_dispatch_fails: false }
            }
        },
        StatsMessageKind::PlayerDeath => {
            let event = handle_player_death_event(stats, players);
            let event = match event {
                Some(e) => Some(StatsEvent::Death(e)),
                None => None,
            };
            StatsTransition { event, in_progress, in_progress_if_dispatch_fails: in_progress }
        },
        StatsMessageKind::PlayerSwitchTeam => {
            let event = handle_team_switch_event(stats, players);
            let event = match event {
                Some(e) => Some(StatsEvent::TeamSwitch(e)),
                None => None,
            };
            StatsTransition { event, in_progress, in_progress_if_dispatch_fails: in_progress }
        },
        StatsMessageKind::Other => StatsTransition { event: None, in_progress, in_progress_if_dispatch_fails: in_progress },
    }
}

/// A message of the feed once read: the parsed statistics, to hand to the
/// statistics handlers, and what follows from them.
#[derive(Debug)]
pub struct ZmqMessage {
    pub stats: JsonValue,
    pub transition: StatsTransition,
}

/// Reads the text `zmq_msg` of a message of the feed: where it is JSON, the
/// parsed statistics and what they lead to (see `try_handle_zmq_msg`); an
/// input/output error naming the parse error otherwise.
pub fn handle_zmq_msg(zmq_msg: &str, in_progress: bool, players: &Vec<Option<PlayerInfo>>) -> (r: Result<
    ZmqMessage,
    StatsListenerError,
>)
    ensures
        match json_parse_outcome(zmq_msg@) {
            Ok(stats) => r matches Ok(m) && m.stats == stats && stats_transition_matches(
                stats,
                in_progress,
                players@,
                m.transition,
            ),
            Err(e) => r matches Err(StatsListenerError::IOError(msg)) && msg@ == "error parsing json data: "@ + e,
        },
{
    match parse_json(zmq_msg) {
        Err(e) => {
            let mut msg = String::from_str("error parsing json data: ");
            msg.append(e.as_str());
            Err(StatsListenerError::IOError(msg))
        },
        Ok(stats) => {
            let transition = try_handle_zmq_msg(&stats, in_progress, players);
            Ok(ZmqMessage { stats, transition })
        },
    }
}

/// The kind of a message with `TYPE` text `kind`.
pub fn message_kind_of(kind: &String) -> (r: StatsMessageKind)
    ensures
        r == message_kind(Some(kind@)),
{
    if *kind == String::from_str("MATCH_STARTED") {
        StatsMessageKind::MatchStarted
    } else if *kind == String::from_str("ROUND_OVER") {
        StatsMessageKind::RoundOver
    } else if *kind == String::from_str("MATCH_REPORT") {
        StatsMessageKind::MatchReport
    } else if *kind == String::from_str("PLAYER_DEATH") {
        StatsMessageKind::PlayerDeath
    } else if *kind == String::from_str("PLAYER_SWITCHTEAM") {
        StatsMessageKind::PlayerSwitchTeam
    } else {
        StatsMessageKind::Other
    }
}

/// A match report ends the match: a second match report right after a first
/// is handed on to no one.
pub proof fn law_match_report_ends_match(
    report1: JsonValue,
    report2: JsonValue,
    in_progress: bool,
    players: Seq<Option<PlayerInfo>>,
    r1: StatsTransition,
    r2: StatsTransition,
)
    requires
        message_kind(json_text(json_member(report1, "TYPE"@))) == StatsMessageKind::MatchReport,
        message_kind(json_text(json_member(report2, "TYPE"@))) == StatsMessageKind::MatchReport,
        stats_transition_matches(report1, in_progress, players, r1),
        stats_transition_matches(report2, r1.in_progress, players, r2),
    ensures
        r2.event is None,
{
}

/// After a match started, its match report is handed on as the end of the
/// game, with the report's data.
pub proof fn law_started_match_ends_with_report(
    start: JsonValue,
    report: JsonValue,
    in_progress: bool,
    players: Seq<Option<PlayerInfo>>,
    r1: StatsTransition,
    r2: StatsTransition,
)
    requires
        message_kind(json_text(json_member(start, "TYPE"@))) == StatsMessageKind::MatchStarted,
        message_kind(json_text(json_member(report, "TYPE"@))) == StatsMessageKind::MatchReport,
        stats_transition_matches(start, in_progress, players, r1),
        stats_transition_matches(report, r1.in_progress, players, r2),
    ensures
        r2.event == Some(StatsEvent::GameEnd),
        !r2.in_progress,
{
}

/// A killer that a death message names only by its name (with no positive
/// Steam id, as for a bot) is the first player on the server with that name,
/// so that the death is also reported as a kill.
pub proof fn law_name_only_killer_is_found(
    stats: JsonValue,
    players: Seq<Option<PlayerInfo>>,
    r: Option<DeathEvent>,
    i: int,
)
    requires
        death_event_matches(stats, players, r),
        r is Some,
        !json_is_null(json_member2(stats, "DATA"@, "KILLER"@)),
        positive_steam_id(json_text(json_member3(stats, "DATA"@, "KILLER"@, "STEAM_ID"@))) is None,
        0 <= i < players.len(),
        players[i] is Some,
        json_text(json_member3(stats, "DATA"@, "KILLER"@, "NAME"@)) == Some(players[i]->0.name@),
        forall|j: int| 0 <= j < i ==> !(players[j] is Some && (#[trigger] players[j])->0.name@ == players[i]->0.name@),
    ensures
        r->0.killer == Some(player_of(players[i]->0)),
{
    law_player_with_name_is_first(players, players[i]->0.name@);
}

/// A killer that a death message names by a positive Steam id is the first
/// player on the server with that id.
pub proof fn law_steam_id_killer_is_found(
    stats: JsonValue,
    players: Seq<Option<PlayerInfo>>,
    r: Option<DeathEvent>,
    i: int,
)
    requires
        death_event_matches(stats, players, r),
        r is Some,
        !json_is_null(json_member2(stats, "DATA"@, "KILLER"@)),
        0 <= i < players.len(),
        players[i] is Some,
        positive_steam_id(json_text(json_member3(stats, "DATA"@, "KILLER"@, "STEAM_ID"@))) == Some(
            players[i]->0.steam_id,
        ),
        forall|j: int|
            0 <= j < i ==> !(players[j] is Some && (#[trigger] players[j])->0.steam_id == players[i]->0.steam_id),
    ensures
        r->0.killer == Some(player_of(players[i]->0)),
{
    law_player_with_steam_id_is_first(players, players[i]->0.steam_id);
}

/// The listener's address uses the configured statistics port whenever one
/// is set, whatever the game's own port is; the game's port only stands in
/// where none is set.
pub proof fn law_stats_port_comes_first(settings: StatsSettings)
    ensures
        settings.zmq_stats_port is Some ==> stats_port(settings) == settings.zmq_stats_port->0@,
        settings.zmq_stats_port is None && settings.net_port is Some ==> stats_port(settings)
            == settings.net_port->0@,
{
}

} // verus!
