//! What the scripting interface learns of a player.
use vstd::prelude::*;

use crate::text::{append_decimal, int_decimal};

verus! {

/// Information about a player: client id, name, connection state, userinfo,
/// Steam id, team and privileges.
#[derive(Debug, PartialEq, Eq)]
pub struct PlayerInfo {
    pub client_id: i32,
    pub name: String,
    pub connection_state: i32,
    pub userinfo: String,
    pub steam_id: i64,
    pub team: i32,
    pub privileges: i32,
}

/// The information about a player, with its texts as sequences of characters.
pub ghost struct PlayerInfoView {
    pub client_id: i32,
    pub name: Seq<char>,
    pub connection_state: i32,
    pub userinfo: Seq<char>,
    pub steam_id: i64,
    pub team: i32,
    pub privileges: i32,
}

impl View for PlayerInfo {
    type V = PlayerInfoView;

    open spec fn view(&self) -> PlayerInfoView {
        PlayerInfoView {
            client_id: self.client_id,
            name: self.name@,
            connection_state: self.connection_state,
            userinfo: self.userinfo@,
            steam_id: self.steam_id,
            team: self.team,
            privileges: self.privileges,
        }
    }
}

/// A player as the event handlers of the scripting interface see it.
#[derive(Debug, PartialEq, Eq)]
pub struct Player {
    pub valid: bool,
    pub id: i32,
    pub user_info: String,
    pub steam_id: i64,
    pub name: String,
    pub player_info: PlayerInfo,
}

/// The text of a player's information, as the scripting interface shows it.
pub open spec fn player_info_text(info: PlayerInfo) -> Seq<char> {
    "PlayerInfo(client_id="@ + int_decimal(info.client_id as int) + ", name="@ + info.name@
        + ", connection_state="@ + int_decimal(info.connection_state as int) + ", userinfo="@
        + info.userinfo@ + ", steam_id="@ + int_decimal(info.steam_id as int) + ", team="@
        + int_decimal(info.team as int) + ", privileges="@ + int_decimal(info.privileges as int) + ")"@
}

/// The player for `info`: a valid player with the id, userinfo, Steam id and
/// name of the information, and the information itself.
pub open spec fn player_of(info: PlayerInfo) -> Player {
    Player {
        valid: true,
        id: info.client_id,
        user_info: info.userinfo,
        steam_id: info.steam_id,
        name: info.name,
        player_info: info,
    }
}

impl PlayerInfo {
    /// A copy of this information.
    pub fn duplicate(&self) -> (r: PlayerInfo)
        ensures
            r == *self,
    {
        PlayerInfo {
            client_id: self.client_id,
            name: self.name.clone(),
            connection_state: self.connection_state,
            userinfo: self.userinfo.clone(),
            steam_id: self.steam_id,
            team: self.team,
            privileges: self.privileges,
        }
    }

    /// The text of the information.
    pub fn __str__(&self) -> (r: String)
        ensures
            r@ == player_info_text(*self),
    {
        let mut text = String::from_str("PlayerInfo(client_id=");
        append_decimal(&mut text, self.client_id as i64);
        text.append(", name=");
        text.append(self.name.as_str());
        text.append(", connection_state=");
        append_decimal(&mut text, self.connection_state as i64);
        text.append(", userinfo=");
        text.append(self.userinfo.as_str());
        text.append(", steam_id=");
        append_decimal(&mut text, self.steam_id);
        text.append(", team=");
        append_decimal(&mut text, self.team as i64);
        text.append(", privileges=");
        append_decimal(&mut text, self.privileges as i64);
        text.append(")");
        text
    }

    /// The representation of the information: the same text.
    pub fn __repr__(&self) -> (r: String)
        ensures
            r@ == player_info_text(*self),
    {
        self.__str__()
    }
}

impl Player {
    /// The player for `info`.
    pub fn from_info(info: &PlayerInfo) -> (r: Player)
        ensures
            r == player_of(*info),
    {
        Player {
            valid: true,
            id: info.client_id,
            user_info: info.userinfo.clone(),
            steam_id: info.steam_id,
            name: info.name.clone(),
            player_info: info.duplicate(),
        }
    }
}

/// The position of the first player in `players` with Steam id `steam_id`,
/// at or after `from`; `players.len()` where there is none.
pub open spec fn first_with_steam_id(players: Seq<Option<PlayerInfo>>, steam_id: i64, from: int) -> int
    decreases players.len() - from,
{
    if from >= players.len() || from < 0 {
        players.len() as int
    } else if players[from] is Some && players[from]->0.steam_id == steam_id {
        from
    } else {
        first_with_steam_id(players, steam_id, from + 1)
    }
}

/// The position of the first player in `players` named `name`, at or after
/// `from`; `players.len()` where there is none.
pub open spec fn first_with_name(players: Seq<Option<PlayerInfo>>, name: Seq<char>, from: int) -> int
    decreases players.len() - from,
{
    if from >= players.len() || from < 0 {
        players.len() as int
    } else if players[from] is Some && players[from]->0.name@ == name {
        from
    } else {
        first_with_name(players, name, from + 1)
    }
}

/// The first connected player with Steam id `steam_id`, if any.
pub open spec fn player_with_steam_id(players: Seq<Option<PlayerInfo>>, steam_id: i64) -> Option<Player> {
    let i = first_with_steam_id(players, steam_id, 0);
    if i < players.len() {
        Some(player_of(players[i]->0))
    } else {
        None
    }
}

/// The first connected player named `name`, if any.
pub open spec fn player_with_name(players: Seq<Option<PlayerInfo>>, name: Seq<char>) -> Option<Player> {
    let i = first_with_name(players, name, 0);
    if i < players.len() {
        Some(player_of(players[i]->0))
    } else {
        None
    }
}

/// The first player of `players_info` whose Steam id is `steam_id`.
pub fn player_by_steam_id(players_info: &Vec<Option<PlayerInfo>>, steam_id: i64) -> (r: Option<Player>)
    ensures
        r == player_with_steam_id(players_info@, steam_id),
{
    let mut i: usize = 0;
    while i < players_info.len()
        invariant
            i <= players_info.len(),
            first_with_steam_id(players_info@, steam_id, i as int) == first_with_steam_id(
                players_info@,
                steam_id,
                0,
            ),
        decreases players_info.len() - i,
    {
        match &players_info[i] {
            Some(info) => {
                if info.steam_id == steam_id {
                    return Some(Player::from_info(info));
                }
            },
            None => {},
        }
        i = i + 1;
    }
    None
}

/// The first player of `players_info` whose name is `name`.
pub fn player_by_name(players_info: &Vec<Option<PlayerInfo>>, name: &str) -> (r: Option<Player>)
    ensures
        r == player_with_name(players_info@, name@),
{
    let wanted = String::from_str(name);
    let mut i: usize = 0;
    while i < players_info.len()
        invariant
            i <= players_info.len(),
            wanted@ == name@,
            first_with_name(players_info@, name@, i as int) == first_with_name(players_info@, name@, 0),
        decreases players_info.len() - i,
    {
        match &players_info[i] {
            Some(info) => {
                if info.name == wanted {
                    return Some(Player::from_info(info));
                }
            },
            None => {},
        }
        i = i + 1;
    }
    None
}

/// Where the search for a name from `from` ends: at the first player so named
/// at or after `from`, or past the end where none is.
proof fn lemma_first_with_name(players: Seq<Option<PlayerInfo>>, name: Seq<char>, from: int)
    requires
        0 <= from <= players.len(),
    ensures
        from <= first_with_name(players, name, from) <= players.len(),
        first_with_name(players, name, from) < players.len() ==> players[first_with_name(players, name, from)] is Some
            && players[first_with_name(players, name, from)]->0.name@ == name,
        forall|j: int|
            from <= j < first_with_name(players, name, from) ==> !(players[j] is Some && (#[trigger] players[j])->0.name@
                == name),
    decreases players.len() - from,
{
    if from < players.len() {
        lemma_first_with_name(players, name, from + 1);
    }
}

/// Where the search for a Steam id from `from` ends.
proof fn lemma_first_with_steam_id(players: Seq<Option<PlayerInfo>>, steam_id: i64, from: int)
    requires
        0 <= from <= players.len(),
    ensures
        from <= first_with_steam_id(players, steam_id, from) <= players.len(),
        first_with_steam_id(players, steam_id, from) < players.len() ==> players[first_with_steam_id(
            players,
            steam_id,
            from,
        )] is Some && players[first_with_steam_id(players, steam_id, from)]->0.steam_id == steam_id,
        forall|j: int|
            from <= j < first_with_steam_id(players, steam_id, from) ==> !(players[j] is Some && (
            #[trigger] players[j])->0.steam_id == steam_id),
    decreases players.len() - from,
{
    if from < players.len() {
        lemma_first_with_steam_id(players, steam_id, from + 1);
    }
}

/// Looking a player up by name finds the first player of the list with that
/// name, and finds none exactly where no player has it.
pub proof fn law_player_with_name_is_first(players: Seq<Option<PlayerInfo>>, name: Seq<char>)
    ensures
        player_with_name(players, name) is None <==> forall|j: int|
            0 <= j < players.len() ==> !(players[j] is Some && (#[trigger] players[j])->0.name@ == name),
        forall|i: int|
            0 <= i < players.len() && players[i] is Some && (#[trigger] players[i])->0.name@ == name && (forall|j: int|
                0 <= j < i ==> !(players[j] is Some && (#[trigger] players[j])->0.name@ == name)) ==> player_with_name(
                players,
                name,
            ) == Some(player_of(players[i]->0)),
{
    lemma_first_with_name(players, name, 0);
    let f = first_with_name(players, name, 0);
    assert forall|i: int|
        0 <= i < players.len() && players[i] is Some && (#[trigger] players[i])->0.name@ == name && (forall|j: int|
            0 <= j < i ==> !(players[j] is Some && (#[trigger] players[j])->0.name@ == name)) implies player_with_name(
        players,
        name,
    ) == Some(player_of(players[i]->0)) by {
        if f < i {
            assert(players[f] is Some && players[f]->0.name@ == name);
        }
        assert(f <= i);
    }
    if player_with_name(players, name) is None {
        assert(f == players.len());
    } else {
        assert(players[f] is Some && players[f]->0.name@ == name);
    }
}

/// Looking a player up by Steam id finds the first player of the list with
/// that id, and finds none exactly where no player has it.
pub proof fn law_player_with_steam_id_is_first(players: Seq<Option<PlayerInfo>>, steam_id: i64)
    ensures
        player_with_steam_id(players, steam_id) is None <==> forall|j: int|
            0 <= j < players.len() ==> !(players[j] is Some && (#[trigger] players[j])->0.steam_id == steam_id),
        forall|i: int|
            0 <= i < players.len() && players[i] is Some && (#[trigger] players[i])->0.steam_id == steam_id && (
            forall|j: int| 0 <= j < i ==> !(players[j] is Some && (#[trigger] players[j])->0.steam_id == steam_id))
                ==> player_with_steam_id(players, steam_id) == Some(player_of(players[i]->0)),
{
    lemma_first_with_steam_id(players, steam_id, 0);
    let f = first_with_steam_id(players, steam_id, 0);
    assert forall|i: int|
        0 <= i < players.len() && players[i] is Some && (#[trigger] players[i])->0.steam_id == steam_id && (
        forall|j: int| 0 <= j < i ==> !(players[j] is Some && (#[trigger] players[j])->0.steam_id == steam_id))
            implies player_with_steam_id(players, steam_id) == Some(player_of(players[i]->0)) by {
        if f < i {
            assert(players[f] is Some && players[f]->0.steam_id == steam_id);
        }
        assert(f <= i);
    }
    if player_with_steam_id(players, steam_id) is None {
        assert(f == players.len());
    } else {
        assert(players[f] is Some && players[f]->0.steam_id == steam_id);
    }
}

} // verus!
