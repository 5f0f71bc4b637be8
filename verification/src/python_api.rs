//! The functions that the scripting interface offers on players and
//! entities: the checks of their arguments and what they read and change.
//! The caller hands in what the engine holds: the number of client slots
//! (`None` where no engine is loaded), and the client slot or game entity
//! with the given id (`None` where the engine has none there).
use vstd::prelude::*;

use crate::client::Client;
use crate::current_level::CurrentLevel;
use crate::dispatchers::free_client_readable;
use crate::game_client::{
    c_string_bytes, flags_for_holdable, has_weapon_bit, powerup_slots_after_set, powerup_time_left,
    powerups_readable, powerups_storable, utf8_lossy_decoding, weapons_flags, GClient, GameClient, PlayerState,
};
use crate::game_entity::{holdable_dropped, slay_damage, without_armor, GEntity, GameEntity, HoldableDrop, SelfDamage};
use crate::player_info::{PlayerInfo, PlayerInfoView};
use crate::python_types::{holdable_index, holdable_of, Flight, Holdable, Powerups, Vector3, Weapons};
use crate::quake_types::{
    clientConnected_t, clientState_t, client_state_number, means_of_death_of_number, meansOfDeath_t,
    privileges_number, privileges_of_number, privileges_t, team_number, team_t, weapon_t, DAMAGE_NO_PROTECTION,
    MODELINDEX_KAMIKAZE, STAT_ARMOR,
};
use crate::text::{append_decimal, int_decimal};
use vstd::array::spec_array_update;

verus! {

/// The errors that the scripting interface raises.
#[derive(Debug, PartialEq, Eq)]
pub enum PythonError {
    /// No engine is loaded.
    EnvironmentError(String),
    /// An argument is out of range.
    ValueError(String),
    /// An argument has a type that cannot be used.
    TypeError(String),
}

/// The message for a client id outside `0..maxclients`.
pub open spec fn client_id_message(maxclients: i32, or_none: bool) -> Seq<char> {
    "client_id needs to be a number from 0 to "@ + int_decimal(maxclients - 1) + if or_none {
        ", or None."@
    } else {
        "."@
    }
}

/// Whether the client id check fails with `r`: with an environment error
/// where no engine is loaded, with a value error for an id outside
/// `0..maxclients`; it succeeds otherwise.
pub open spec fn client_id_checked(maxclients: Option<i32>, client_id: i32, or_none: bool, r: Result<(), PythonError>) -> bool {
    match maxclients {
        None => r matches Err(PythonError::EnvironmentError(m)) && m@ == "main quake live engine not set"@,
        Some(max) => if 0 <= client_id < max {
            r is Ok
        } else {
            r matches Err(PythonError::ValueError(m)) && m@ == client_id_message(max, or_none)
        },
    }
}

/// Checks a client id against the number of client slots.
pub fn check_client_id(maxclients: Option<i32>, client_id: i32, or_none: bool) -> (r: Result<(), PythonError>)
    ensures
        client_id_checked(maxclients, client_id, or_none, r),
{
    match maxclients {
        None => Err(PythonError::EnvironmentError(String::from_str("main quake live engine not set"))),
        Some(max) => {
            if 0 <= client_id && client_id < max {
                Ok(())
            } else {
                let mut msg = String::from_str("client_id needs to be a number from 0 to ");
                append_decimal(&mut msg, max as i64 - 1);
                if or_none {
                    msg.append(", or None.");
                } else {
                    msg.append(".");
                }
                Err(PythonError::ValueError(msg))
            }
        },
    }
}

/// The information about the player at `client_id`, where the engine holds
/// `entity` and `client` for it: defaults where there is no entity; the
/// entity's name, team and privileges with a free slot where there is no client.
pub open spec fn player_info_of(client_id: i32, entity: Option<GameEntity>, client: Option<Client>) -> PlayerInfoView {
    match entity {
        None => PlayerInfoView {
            client_id,
            name: Seq::<char>::empty(),
            connection_state: 0,
            userinfo: Seq::<char>::empty(),
            steam_id: 0,
            team: 3,
            privileges: -1i32,
        },
        Some(e) => {
            let name_text = match e.gentity_t.client {
                None => Seq::<char>::empty(),
                Some(c) => if c.pers.connected == clientConnected_t::CON_DISCONNECTED {
                    Seq::<char>::empty()
                } else {
                    utf8_lossy_decoding(c_string_bytes(c.pers.netname@))
                },
            };
            let team = match e.gentity_t.client {
                None => team_t::TEAM_SPECTATOR,
                Some(c) => if c.pers.connected == clientConnected_t::CON_DISCONNECTED {
                    team_t::TEAM_SPECTATOR
                } else {
                    c.sess.sessionTeam
                },
            };
            let privileges = match e.gentity_t.client {
                None => privileges_t::PRIV_BANNED,
                Some(c) => c.sess.privileges,
            };
            PlayerInfoView {
                client_id,
                name: name_text,
                connection_state: match client {
                    None => 0,
                    Some(c) => client_state_number(c.state),
                },
                userinfo: match client {
                    None => Seq::<char>::empty(),
                    Some(c) => c.userinfo@,
                },
                steam_id: match client {
                    None => 0,
                    Some(c) => c.steam_id,
                },
                team: team_number(team),
                privileges: privileges_number(privileges),
            }
        },
    }
}

/// Whether `r` is the information of `player_info_of`.
pub open spec fn is_player_info_of(r: PlayerInfo, client_id: i32, entity: Option<GameEntity>, client: Option<Client>) -> bool {
    r@ == player_info_of(client_id, entity, client)
}

/// The information about the player at `client_id`.
pub fn player_info_from(client_id: i32, entity: Option<&GameEntity>, client: Option<&Client>) -> (r: PlayerInfo)
    ensures
        is_player_info_of(
            r,
            client_id,
            match entity {
                Some(e) => Some(*e),
                None => None,
            },
            match client {
                Some(c) => Some(*c),
                None => None,
            },
        ),
{
    match entity {
        None => PlayerInfo {
            client_id,
            name: String::new(),
            connection_state: 0,
            userinfo: String::new(),
            steam_id: 0,
            team: 3,
            privileges: -1,
        },
        Some(game_entity) => {
            match client {
                None => PlayerInfo {
                    client_id,
                    name: game_entity.get_player_name(),
                    connection_state: clientState_t::CS_FREE.number(),
                    userinfo: String::new(),
                    steam_id: 0,
                    team: game_entity.get_team().number(),
                    privileges: game_entity.get_privileges().number(),
                },
                Some(c) => PlayerInfo {
                    client_id,
                    name: game_entity.get_player_name(),
                    connection_state: c.get_state().number(),
                    userinfo: c.get_user_info(),
                    steam_id: c.get_steam_id(),
                    team: game_entity.get_team().number(),
                    privileges: game_entity.get_privileges().number(),
                },
            }
        },
    }
}

/// The information about the player at `client_id` for a script: none for a
/// free slot, unless the slot may be read while its connection is handled
/// (`allow_free_client` holds it).
pub fn get_player_info(
    maxclients: Option<i32>,
    client_id: i32,
    entity: Option<&GameEntity>,
    client: Option<&Client>,
    allow_free_client: u64,
) -> (r: Result<Option<PlayerInfo>, PythonError>)
    ensures
        client_id_checked(
            maxclients,
            client_id,
            false,
            match r {
                Ok(_) => Ok(()),
                Err(e) => Err(e),
            },
        ),
        r matches Ok(opt) ==> match client {
            Some(c) => if !free_client_readable(allow_free_client, client_id) && c.state == clientState_t::CS_FREE {
                opt is None
            } else {
                opt matches Some(info) && is_player_info_of(
                    info,
                    client_id,
                    match entity {
                        Some(e) => Some(*e),
                        None => None,
                    },
                    Some(*c),
                )
            },
            None => opt matches Some(info) && is_player_info_of(
                info,
                client_id,
                match entity {
                    Some(e) => Some(*e),
                    None => None,
                },
                None,
            ),
        },
{
    match check_client_id(maxclients, client_id, false) {
        Err(e) => return Err(e),
        Ok(()) => {},
    }
    match client {
        None => Ok(Some(player_info_from(client_id, entity, None))),
        Some(c) => {
            if allow_free_client & (client_id as u64) == 0 && c.get_state() == clientState_t::CS_FREE {
                Ok(None)
            } else {
                Ok(Some(player_info_from(client_id, entity, Some(c))))
            }
        },
    }
}

/// The userinfo of the client at `client_id` for a script: none where there
/// is no client, or its slot is free and may not be read.
pub fn get_userinfo(maxclients: Option<i32>, client_id: i32, client: Option<&Client>, allow_free_client: u64) -> (r: Result<
    Option<String>,
    PythonError,
>)
    ensures
        client_id_checked(
            maxclients,
            client_id,
            false,
            match r {
                Ok(_) => Ok(()),
                Err(e) => Err(e),
            },
        ),
        r matches Ok(opt) ==> opt == match client {
            Some(c) => if c.state != clientState_t::CS_FREE || free_client_readable(allow_free_client, client_id) {
                Some(c.userinfo)
            } else {
                None
            },
            None => None,
        },
{
    match check_client_id(maxclients, client_id, false) {
        Err(e) => return Err(e),
        Ok(()) => {},
    }
    match client {
        None => Ok(None),
        Some(c) => {
            if c.get_state() != clientState_t::CS_FREE || allow_free_client & (client_id as u64) != 0 {
                Ok(Some(c.get_user_info()))
            } else {
                Ok(None)
            }
        },
    }
}

/// Whether a script's server command to `client_id` goes out (to every
/// client where `client_id` is `None`, to an active client otherwise).
pub fn send_server_command(maxclients: Option<i32>, client_id: Option<i32>, client: Option<&Client>) -> (r: Result<
    bool,
    PythonError,
>)
    ensures
        client_id is None ==> r == Ok::<bool, PythonError>(true),
        client_id is Some ==> client_id_checked(
            maxclients,
            client_id->0,
            true,
            match r {
                Ok(_) => Ok(()),
                Err(e) => Err(e),
            },
        ),
        client_id is Some && r is Ok ==> r == Ok::<bool, PythonError>(
            client is Some && client->0.state == clientState_t::CS_ACTIVE,
        ),
{
    match client_id {
        None => Ok(true),
        Some(id) => {
            match check_client_id(maxclients, id, true) {
                Err(e) => return Err(e),
                Ok(()) => {},
            }
            match client {
                Some(c) => Ok(c.get_state() == clientState_t::CS_ACTIVE),
                None => Ok(false),
            }
        },
    }
}

/// Whether a script's client command for `client_id` is executed: only for a
/// client whose slot is neither free nor a zombie.
pub fn client_command(maxclients: Option<i32>, client_id: i32, client: Option<&Client>) -> (r: Result<bool, PythonError>)
    ensures
        client_id_checked(
            maxclients,
            client_id,
            true,
            match r {
                Ok(_) => Ok(()),
                Err(e) => Err(e),
            },
        ),
        r is Ok ==> r == Ok::<bool, PythonError>(
            client is Some && client->0.state != clientState_t::CS_FREE && client->0.state != clientState_t::CS_ZOMBIE,
        ),
{
    match check_client_id(maxclients, client_id, true) {
        Err(e) => return Err(e),
        Ok(()) => {},
    }
    match client {
        Some(c) => {
            let state = c.get_state();
            Ok(state != clientState_t::CS_FREE && state != clientState_t::CS_ZOMBIE)
        },
        None => Ok(false),
    }
}

/// The reason a player is kicked with: the given one where it is not empty,
/// "was kicked." otherwise.
pub open spec fn kick_reason(reason: Option<Seq<char>>) -> Seq<char> {
    match reason {
        Some(r) => if r.len() > 0 {
            r
        } else {
            "was kicked."@
        },
        None => "was kicked."@,
    }
}

/// A script kicking the player at `client_id`: the reason the client is
/// dropped with; an error where the client is not active.
pub fn kick(maxclients: Option<i32>, client_id: i32, client: Option<&Client>, reason: Option<&str>) -> (r: Result<
    String,
    PythonError,
>)
    ensures
        !(maxclients matches Some(max) && 0 <= client_id < max) ==> client_id_checked(
            maxclients,
            client_id,
            false,
            match r {
                Ok(_) => Ok(()),
                Err(e) => Err(e),
            },
        ),
        maxclients matches Some(max) && 0 <= client_id < max ==> if client is Some && client->0.state
            == clientState_t::CS_ACTIVE {
            r matches Ok(s) && s@ == kick_reason(
                match reason {
                    Some(t) => Some(t@),
                    None => None,
                },
            )
        } else {
            r matches Err(PythonError::ValueError(m)) && m@ == "client_id must be the ID of an active player."@
        },
{
    match check_client_id(maxclients, client_id, false) {
        Err(e) => return Err(e),
        Ok(()) => {},
    }
    let active = match client {
        Some(c) => c.get_state() == clientState_t::CS_ACTIVE,
        None => false,
    };
    if !active {
        return Err(PythonError::ValueError(String::from_str("client_id must be the ID of an active player.")));
    }
    match reason {
        Some(text) => {
            if text.unicode_len() > 0 {
                Ok(String::from_str(text))
            } else {
                Ok(String::from_str("was kicked."))
            }
        },
        None => Ok(String::from_str("was kicked.")),
    }
}

/// The player of the entity, if there is an entity and it has one.
pub open spec fn entity_client(entity: Option<GameEntity>) -> Option<GClient> {
    match entity {
        Some(e) => e.gentity_t.client,
        None => None,
    }
}

/// The entity with its player replaced by `client`.
pub open spec fn with_entity_client(entity: Option<GameEntity>, client: GClient) -> Option<GameEntity> {
    match entity {
        Some(e) => Some(GameEntity { gentity_t: GEntity { client: Some(client), ..e.gentity_t }, ..e }),
        None => None,
    }
}

/// Whether the result `r` of a function of the scripting interface that
/// checks a client id fails exactly as the check does.
pub open spec fn checked_as_client_id(maxclients: Option<i32>, client_id: i32, r: Result<bool, PythonError>) -> bool {
    client_id_checked(
        maxclients,
        client_id,
        false,
        match r {
            Ok(_) => Ok(()),
            Err(e) => Err(e),
        },
    )
}

/// Turns noclip of the player at `client_id` on or off: true where the player
/// exists and the setting changed, false (and nothing changes) otherwise.
pub fn noclip(maxclients: Option<i32>, client_id: i32, entity: &mut Option<GameEntity>, activate: bool) -> (r: Result<
    bool,
    PythonError,
>)
    ensures
        checked_as_client_id(maxclients, client_id, r),
        r is Err ==> *final(entity) == *old(entity),
        r is Ok ==> match entity_client(*old(entity)) {
            Some(c) => if c.noclip != activate {
                r == Ok::<bool, PythonError>(true) && *final(entity) == with_entity_client(
                    *old(entity),
                    GClient { noclip: activate, ..c },
                )
            } else {
                r == Ok::<bool, PythonError>(false) && *final(entity) == *old(entity)
            },
            None => r == Ok::<bool, PythonError>(false) && *final(entity) == *old(entity),
        },
{
    match check_client_id(maxclients, client_id, false) {
        Err(e) => return Err(e),
        Ok(()) => {},
    }
    match entity {
        Some(game_entity) => match game_entity.gentity_t.client {
            Some(client) => {
                if client.noclip != activate {
                    let mut game_client = GameClient { game_client: client };
                    game_client.set_noclip(activate);
                    game_entity.gentity_t.client = Some(game_client.game_client);
                    Ok(true)
                } else {
                    Ok(false)
                }
            },
            None => Ok(false),
        },
        None => Ok(false),
    }
}

/// What a function that changes the player at a client id did, where the id
/// passed its check: true and the player changed by `update` where the
/// entity has a player; false and nothing changed otherwise. Where the check
/// failed nothing changed.
pub open spec fn client_updated(
    before: Option<GameEntity>,
    after: Option<GameEntity>,
    r: Result<bool, PythonError>,
    update: spec_fn(GClient) -> GClient,
) -> bool {
    &&& r is Err ==> after == before
    &&& r is Ok ==> match entity_client(before) {
        Some(c) => r == Ok::<bool, PythonError>(true) && after == with_entity_client(before, update(c)),
        None => r == Ok::<bool, PythonError>(false) && after == before,
    }
}

/// Sets the armor of the player at `client_id`.
pub fn set_armor(maxclients: Option<i32>, client_id: i32, entity: &mut Option<GameEntity>, armor: i32) -> (r: Result<
    bool,
    PythonError,
>)
    ensures
        checked_as_client_id(maxclients, client_id, r),
        client_updated(*old(entity), *final(entity), r, |c: GClient| c.with_stat(STAT_ARMOR as int, armor)),
{
    match check_client_id(maxclients, client_id, false) {
        Err(e) => return Err(e),
        Ok(()) => {},
    }
    match entity {
        Some(game_entity) => match game_entity.gentity_t.client {
            Some(client) => {
                let mut game_client = GameClient { game_client: client };
                game_client.set_armor(armor);
                game_entity.gentity_t.client = Some(game_client.game_client);
                Ok(true)
            },
            None => Ok(false),
        },
        None => Ok(false),
    }
}

/// Gives the player at `client_id` exactly the weapons whose value is positive.
pub fn set_weapons(maxclients: Option<i32>, client_id: i32, entity: &mut Option<GameEntity>, weapons: Weapons) -> (r:
    Result<bool, PythonError>)
    ensures
        checked_as_client_id(maxclients, client_id, r),
        client_updated(
            *old(entity),
            *final(entity),
            r,
            |c: GClient|
                c.with_stat(
                    crate::quake_types::STAT_WEAPONS as int,
                    weapons_flags(crate::python_types::weapons_values(weapons), 15),
                ),
        ),
{
    match check_client_id(maxclients, client_id, false) {
        Err(e) => return Err(e),
        Ok(()) => {},
    }
    match entity {
        Some(game_entity) => match game_entity.gentity_t.client {
            Some(client) => {
                let mut game_client = GameClient { game_client: client };
                game_client.set_weapons(weapons.to_array());
                game_entity.gentity_t.client = Some(game_client.game_client);
                Ok(true)
            },
            None => Ok(false),
        },
        None => Ok(false),
    }
}

/// Puts weapon number `weapon` (0 to 15) in the hand of the player at `client_id`.
pub fn set_weapon(maxclients: Option<i32>, client_id: i32, entity: &mut Option<GameEntity>, weapon: i32) -> (r: Result<
    bool,
    PythonError,
>)
    ensures
        !(maxclients matches Some(max) && 0 <= client_id < max) ==> checked_as_client_id(maxclients, client_id, r),
        maxclients matches Some(max) && 0 <= client_id < max && !(0 <= weapon < 16) ==> (r matches Err(
            PythonError::ValueError(m),
        ) && m@ == "Weapon must be a number from 0 to 15."@),
        r is Err ==> *final(entity) == *old(entity),
        maxclients matches Some(max) && 0 <= client_id < max && 0 <= weapon < 16 ==> client_updated(
            *old(entity),
            *final(entity),
            r,
            |c: GClient| c.with_ps(PlayerState { weapon: weapon, ..c.ps }),
        ) && r is Ok,
{
    match check_client_id(maxclients, client_id, false) {
        Err(e) => return Err(e),
        Ok(()) => {},
    }
    if !(0 <= weapon && weapon < 16) {
        return Err(PythonError::ValueError(String::from_str("Weapon must be a number from 0 to 15.")));
    }
    match entity {
        Some(game_entity) => match game_entity.gentity_t.client {
            Some(client) => {
                let mut game_client = GameClient { game_client: client };
                game_client.set_weapon(weapon_t::from_number(weapon));
                game_entity.gentity_t.client = Some(game_client.game_client);
                Ok(true)
            },
            None => Ok(false),
        },
        None => Ok(false),
    }
}

/// Sets the ammunition of the fifteen weapons of the player at `client_id`.
pub fn set_ammo(maxclients: Option<i32>, client_id: i32, entity: &mut Option<GameEntity>, ammos: Weapons) -> (r: Result<
    bool,
    PythonError,
>)
    ensures
        checked_as_client_id(maxclients, client_id, r),
        r is Err ==> *final(entity) == *old(entity),
        r is Ok ==> match entity_client(*old(entity)) {
            Some(c) => r == Ok::<bool, PythonError>(true) && (entity_client(*final(entity)) matches Some(after)
                && after.ps.ammo@ == seq![c.ps.ammo[0]] + crate::python_types::weapons_values(ammos)
                && *final(entity) == with_entity_client(*old(entity), c.with_ps(PlayerState { ammo: after.ps.ammo, ..c.ps }))),
            None => r == Ok::<bool, PythonError>(false) && *final(entity) == *old(entity),
        },
{
    match check_client_id(maxclients, client_id, false) {
        Err(e) => return Err(e),
        Ok(()) => {},
    }
    match entity {
        Some(game_entity) => match game_entity.gentity_t.client {
            Some(client) => {
                let mut game_client = GameClient { game_client: client };
                game_client.set_ammos(ammos.to_array());
                game_entity.gentity_t.client = Some(game_client.game_client);
                Ok(true)
            },
            None => Ok(false),
        },
        None => Ok(false),
    }
}

/// Sets the six exposed powerups of the player at `client_id`, at the level
/// time of `current_level`.
pub fn set_powerups(
    maxclients: Option<i32>,
    client_id: i32,
    entity: &mut Option<GameEntity>,
    powerups: Powerups,
    current_level: &CurrentLevel,
) -> (r: Result<bool, PythonError>)
    requires
        powerups_storable(crate::python_types::powerups_values(powerups), current_level.level.time),
    ensures
        checked_as_client_id(maxclients, client_id, r),
        r is Err ==> *final(entity) == *old(entity),
        r is Ok ==> match entity_client(*old(entity)) {
            Some(c) => r == Ok::<bool, PythonError>(true) && (entity_client(*final(entity)) matches Some(after)
                && after.ps.powerups@ == powerup_slots_after_set(
                c.ps.powerups@,
                crate::python_types::powerups_values(powerups),
                current_level.level.time,
            ) && *final(entity) == with_entity_client(
                *old(entity),
                c.with_ps(PlayerState { powerups: after.ps.powerups, ..c.ps }),
            )),
            None => r == Ok::<bool, PythonError>(false) && *final(entity) == *old(entity),
        },
{
    match check_client_id(maxclients, client_id, false) {
        Err(e) => return Err(e),
        Ok(()) => {},
    }
    match entity {
        Some(game_entity) => match game_entity.gentity_t.client {
            Some(client) => {
                let mut game_client = GameClient { game_client: client };
                game_client.set_powerups(powerups.to_array(), current_level);
                game_entity.gentity_t.client = Some(game_client.game_client);
                Ok(true)
            },
            None => Ok(false),
        },
        None => Ok(false),
    }
}

/// Hands the player at `client_id` the holdable item for `holdable` (an
/// unknown one counts as none).
pub fn set_holdable(maxclients: Option<i32>, client_id: i32, entity: &mut Option<GameEntity>, holdable: i32) -> (r:
    Result<bool, PythonError>)
    ensures
        checked_as_client_id(maxclients, client_id, r),
        client_updated(
            *old(entity),
            *final(entity),
            r,
            |c: GClient|
                c.with_ps(
                    PlayerState {
                        eFlags: flags_for_holdable(c.ps.eFlags, holdable_index(holdable_of(holdable))),
                        stats: spec_array_update(
                            c.ps.stats,
                            crate::quake_types::STAT_HOLDABLE_ITEM as int,
                            holdable_index(holdable_of(holdable)),
                        ),
                        ..c.ps
                    },
                ),
        ),
{
    match check_client_id(maxclients, client_id, false) {
        Err(e) => return Err(e),
        Ok(()) => {},
    }
    let ql_holdable = Holdable::from_number(holdable);
    match entity {
        Some(game_entity) => match game_entity.gentity_t.client {
            Some(client) => {
                let mut game_client = GameClient { game_client: client };
                game_client.set_holdable(ql_holdable.number());
                game_entity.gentity_t.client = Some(game_client.game_client);
                Ok(true)
            },
            None => Ok(false),
        },
        None => Ok(false),
    }
}

/// Sets the flight parameters of the player at `client_id`.
pub fn set_flight(maxclients: Option<i32>, client_id: i32, entity: &mut Option<GameEntity>, flight: Flight) -> (r: Result<
    bool,
    PythonError,
>)
    ensures
        checked_as_client_id(maxclients, client_id, r),
        client_updated(
            *old(entity),
            *final(entity),
            r,
            |c: GClient|
                c.with_stat(crate::quake_types::STAT_CUR_FLIGHT_FUEL as int, flight.0).with_stat(
                    crate::quake_types::STAT_MAX_FLIGHT_FUEL as int,
                    flight.1,
                ).with_stat(crate::quake_types::STAT_FLIGHT_THRUST as int, flight.2).with_stat(
                    crate::quake_types::STAT_FLIGHT_REFUEL as int,
                    flight.3,
                ),
        ),
{
    match check_client_id(maxclients, client_id, false) {
        Err(e) => return Err(e),
        Ok(()) => {},
    }
    match entity {
        Some(game_entity) => match game_entity.gentity_t.client {
            Some(client) => {
                let mut game_client = GameClient { game_client: client };
                game_client.set_flight(flight.to_array());
                game_entity.gentity_t.client = Some(game_client.game_client);
                Ok(true)
            },
            None => Ok(false),
        },
        None => Ok(false),
    }
}

/// Makes the player at `client_id` invulnerable for `time` milliseconds from
/// the level time of `current_level`.
pub fn set_invulnerability(
    maxclients: Option<i32>,
    client_id: i32,
    entity: &mut Option<GameEntity>,
    time: i32,
    current_level: &CurrentLevel,
) -> (r: Result<bool, PythonError>)
    requires
        i32::MIN <= current_level.level.time + time <= i32::MAX,
    ensures
        checked_as_client_id(maxclients, client_id, r),
        client_updated(
            *old(entity),
            *final(entity),
            r,
            |c: GClient| GClient { invulnerabilityTime: (current_level.level.time + time) as i32, ..c },
        ),
{
    match check_client_id(maxclients, client_id, false) {
        Err(e) => return Err(e),
        Ok(()) => {},
    }
    match entity {
        Some(game_entity) => match game_entity.gentity_t.client {
            Some(client) => {
                let mut game_client = GameClient { game_client: client };
                game_client.set_invulnerability(time, current_level);
                game_entity.gentity_t.client = Some(game_client.game_client);
                Ok(true)
            },
            None => Ok(false),
        },
        None => Ok(false),
    }
}

/// Sets the round score of the player at `client_id`.
pub fn set_score(maxclients: Option<i32>, client_id: i32, entity: &mut Option<GameEntity>, score: i32) -> (r: Result<
    bool,
    PythonError,
>)
    ensures
        checked_as_client_id(maxclients, client_id, r),
        client_updated(
            *old(entity),
            *final(entity),
            r,
            |c: GClient|
                c.with_ps(
                    PlayerState {
                        persistant: spec_array_update(c.ps.persistant, crate::quake_types::PERS_ROUND_SCORE as int, score),
                        ..c.ps
                    },
                ),
        ),
{
    match check_client_id(maxclients, client_id, false) {
        Err(e) => return Err(e),
        Ok(()) => {},
    }
    match entity {
        Some(game_entity) => match game_entity.gentity_t.client {
            Some(client) => {
                let mut game_client = GameClient { game_client: client };
                game_client.set_score(score);
                game_entity.gentity_t.client = Some(game_client.game_client);
                Ok(true)
            },
            None => Ok(false),
        },
        None => Ok(false),
    }
}

/// Sets the privileges of the player at `client_id` to those that
/// `privileges` stands for.
pub fn set_privileges(maxclients: Option<i32>, client_id: i32, entity: &mut Option<GameEntity>, privileges: i32) -> (r:
    Result<bool, PythonError>)
    ensures
        checked_as_client_id(maxclients, client_id, r),
        client_updated(
            *old(entity),
            *final(entity),
            r,
            |c: GClient|
                GClient {
                    sess: crate::game_client::ClientSession { privileges: privileges_of_number(privileges), ..c.sess },
                    ..c
                },
        ),
{
    match check_client_id(maxclients, client_id, false) {
        Err(e) => return Err(e),
        Ok(()) => {},
    }
    match entity {
        Some(game_entity) => match game_entity.gentity_t.client {
            Some(client) => {
                let mut game_client = GameClient { game_client: client };
                game_client.set_privileges(privileges_t::from_number(privileges));
                game_entity.gentity_t.client = Some(game_client.game_client);
                Ok(true)
            },
            None => Ok(false),
        },
        None => Ok(false),
    }
}

/// Sets the health of the entity at `client_id`: true where the entity exists.
pub fn set_health(maxclients: Option<i32>, client_id: i32, entity: &mut Option<GameEntity>, health: i32) -> (r: Result<
    bool,
    PythonError,
>)
    ensures
        checked_as_client_id(maxclients, client_id, r),
        r is Err ==> *final(entity) == *old(entity),
        r is Ok ==> match *old(entity) {
            Some(e) => r == Ok::<bool, PythonError>(true) && *final(entity) == Some(
                GameEntity { gentity_t: GEntity { health: health, ..e.gentity_t }, ..e },
            ),
            None => r == Ok::<bool, PythonError>(false) && *final(entity) == *old(entity),
        },
{
    match check_client_id(maxclients, client_id, false) {
        Err(e) => return Err(e),
        Ok(()) => {},
    }
    match entity {
        Some(game_entity) => {
            game_entity.set_health(health);
            Ok(true)
        },
        None => Ok(false),
    }
}

/// Drops the holdable item of the player at `client_id`: the player's
/// kamikaze flag is cleared, and where the player holds an item the entity
/// drops it (at the level time of `current_level`, zero where the engine runs
/// no level, with `num_items` items in the item list); true where it did.
pub fn drop_holdable(
    maxclients: Option<i32>,
    client_id: i32,
    entity: &mut Option<GameEntity>,
    current_level: Option<&CurrentLevel>,
    num_items: i32,
) -> (r: Result<(bool, Option<HoldableDrop>), PythonError>)
    requires
        -2147483148 <= (match current_level {
            Some(level) => level.level.time as int,
            None => 0int,
        }) <= 2147482647,
    ensures
        client_id_checked(
            maxclients,
            client_id,
            false,
            match r {
                Ok(_) => Ok(()),
                Err(e) => Err(e),
            },
        ),
        r is Err ==> *final(entity) == *old(entity),
        r is Ok ==> match *old(entity) {
            None => r == Ok::<(bool, Option<HoldableDrop>), PythonError>((false, None)) && *final(entity) == *old(entity),
            Some(e) => match e.gentity_t.client {
                None => r == Ok::<(bool, Option<HoldableDrop>), PythonError>((false, None)) && *final(entity) == *old(entity),
                Some(c) => {
                    let unflagged = GEntity {
                        client: Some(c.with_ps(PlayerState { eFlags: c.ps.eFlags & !crate::quake_types::EF_KAMIKAZE, ..c.ps })),
                        ..e.gentity_t
                    };
                    if c.ps.stats[crate::quake_types::STAT_HOLDABLE_ITEM as int] == 0 {
                        r == Ok::<(bool, Option<HoldableDrop>), PythonError>((false, None)) && *final(entity) == Some(
                            GameEntity { gentity_t: unflagged, ..e },
                        )
                    } else {
                        r matches Ok((true, drop)) && *final(entity) matches Some(after) && after.address == e.address
                            && holdable_dropped(
                            unflagged,
                            after.gentity_t,
                            match current_level {
                                Some(level) => level.level.time,
                                None => 0i32,
                            },
                            num_items,
                            drop,
                        )
                    }
                },
            },
        },
{
    match check_client_id(maxclients, client_id, false) {
        Err(e) => return Err(e),
        Ok(()) => {},
    }
    match entity {
        None => Ok((false, None)),
        Some(game_entity) => match game_entity.gentity_t.client {
            None => Ok((false, None)),
            Some(client) => {
                let mut game_client = GameClient { game_client: client };
                game_client.remove_kamikaze_flag();
                let holdable = game_client.get_holdable();
                game_entity.gentity_t.client = Some(game_client.game_client);
                if Holdable::from_number(holdable) == Holdable::Nothing {
                    Ok((false, None))
                } else {
                    let drop = game_entity.drop_holdable(true, current_level, num_items);
                    Ok((true, drop))
                }
            },
        },
    }
}

/// Brings the player at `client_id` back to normal movement: true where the
/// entity has a player; the entity id to tell the spawn handler of comes
/// with it.
pub fn player_spawn(
    maxclients: Option<i32>,
    client_id: i32,
    entity: &mut Option<GameEntity>,
    g_entities: Option<i64>,
) -> (r: Result<(bool, Option<i32>), PythonError>)
    ensures
        client_id_checked(
            maxclients,
            client_id,
            false,
            match r {
                Ok(_) => Ok(()),
                Err(e) => Err(e),
            },
        ),
        r is Err ==> *final(entity) == *old(entity),
        r is Ok ==> match entity_client(*old(entity)) {
            Some(c) => r == Ok::<(bool, Option<i32>), PythonError>(
                (
                    true,
                    Some(
                        match g_entities {
                            Some(start) => crate::game_item::item_offset_id(old(entity)->0.address, start),
                            None => -1i32,
                        },
                    ),
                ),
            ) && *final(entity) == with_entity_client(
                *old(entity),
                c.with_ps(PlayerState { pm_type: crate::quake_types::pmtype_t::PM_NORMAL, ..c.ps }),
            ),
            None => r == Ok::<(bool, Option<i32>), PythonError>((false, None)) && *final(entity) == *old(entity),
        },
{
    match check_client_id(maxclients, client_id, false) {
        Err(e) => return Err(e),
        Ok(()) => {},
    }
    match entity {
        None => Ok((false, None)),
        Some(game_entity) => match game_entity.gentity_t.client {
            None => Ok((false, None)),
            Some(client) => {
                let mut game_client = GameClient { game_client: client };
                game_client.spawn();
                game_entity.gentity_t.client = Some(game_client.game_client);
                let spawned = crate::hooks::shinqlx_client_spawn(true, game_entity, g_entities);
                Ok((true, spawned))
            },
        },
    }
}

/// Kills the player at `client_id` with the cause of death numbered
/// `mean_of_death`: an error for a number that names no cause; true where
/// the entity has a player; a player with health left is slain.
pub fn slay_with_mod(
    maxclients: Option<i32>,
    client_id: i32,
    entity: &mut Option<GameEntity>,
    mean_of_death: i32,
) -> (r: Result<(bool, Option<SelfDamage>), PythonError>)
    requires
        match *old(entity) {
            Some(e) => i32::MIN <= 2 * (e.gentity_t.health + 100000) && 2 * e.gentity_t.health <= i32::MAX - 200000,
            None => true,
        },
    ensures
        !(maxclients matches Some(max) && 0 <= client_id < max) ==> client_id_checked(
            maxclients,
            client_id,
            false,
            match r {
                Ok(_) => Ok(()),
                Err(e) => Err(e),
            },
        ),
        maxclients matches Some(max) && 0 <= client_id < max && means_of_death_of_number(mean_of_death) is None ==> (
        r matches Err(PythonError::ValueError(m)) && m@ == "means of death needs to be a valid enum value."@),
        maxclients matches Some(max) && 0 <= client_id < max && means_of_death_of_number(mean_of_death) is Some
            ==> r is Ok,
        r is Err ==> *final(entity) == *old(entity),
        r is Ok ==> match entity_client(*old(entity)) {
            None => r == Ok::<(bool, Option<SelfDamage>), PythonError>((false, None)) && *final(entity) == *old(entity),
            Some(c) => {
                let e = old(entity)->0;
                let mod_ = means_of_death_of_number(mean_of_death)->0;
                if e.gentity_t.health > 0 {
                    r == Ok::<(bool, Option<SelfDamage>), PythonError>(
                        (
                            true,
                            Some(
                                SelfDamage {
                                    damage: (2 * slay_damage(e.gentity_t.health, mod_)) as i32,
                                    dflags: DAMAGE_NO_PROTECTION,
                                    means_of_death: mod_,
                                },
                            ),
                        ),
                    ) && *final(entity) == Some(
                        GameEntity {
                            gentity_t: GEntity { client: without_armor(e.gentity_t.client), ..e.gentity_t },
                            ..e
                        },
                    )
                } else {
                    r == Ok::<(bool, Option<SelfDamage>), PythonError>((true, None)) && *final(entity) == *old(entity)
                }
            },
        },
{
    match check_client_id(maxclients, client_id, false) {
        Err(e) => return Err(e),
        Ok(()) => {},
    }
    let means_of_death = match meansOfDeath_t::try_from_number(mean_of_death) {
        None => return Err(PythonError::ValueError(String::from_str("means of death needs to be a valid enum value."))),
        Some(m) => m,
    };
    match entity {
        None => Ok((false, None)),
        Some(game_entity) => {
            if game_entity.gentity_t.client.is_none() {
                return Ok((false, None));
            }
            if game_entity.get_health() > 0 {
                let damage = game_entity.slay_with_mod(means_of_death, true);
                Ok((true, damage))
            } else {
                Ok((true, None))
            }
        },
    }
}

/// A player's score and basic statistics.
#[derive(Debug, PartialEq, Eq)]
pub struct PlayerStats {
    pub score: i32,
    pub kills: i32,
    pub deaths: i32,
    pub damage_dealt: i32,
    pub damage_taken: i32,
    pub time: i32,
    pub ping: i32,
}

/// The statistics of a player at the level time `level_time`.
pub open spec fn stats_of(c: GClient, level_time: i32) -> PlayerStats {
    PlayerStats {
        score: if c.sess.sessionTeam == team_t::TEAM_SPECTATOR {
            0
        } else {
            c.ps.persistant[crate::quake_types::PERS_ROUND_SCORE as int]
        },
        kills: c.expandedStats.numKills,
        deaths: c.expandedStats.numDeaths,
        damage_dealt: c.expandedStats.totalDamageDealt,
        damage_taken: c.expandedStats.totalDamageTaken,
        time: (level_time - c.pers.enterTime) as i32,
        ping: c.ps.ping,
    }
}

/// The text of a player's statistics as the scripting interface shows them.
pub open spec fn player_stats_text(s: PlayerStats) -> Seq<char> {
    "PlayerStats(score="@ + int_decimal(s.score as int) + ", kills="@ + int_decimal(s.kills as int) + ", deaths="@
        + int_decimal(s.deaths as int) + ", damage_dealt="@ + int_decimal(s.damage_dealt as int)
        + ", damage_taken="@ + int_decimal(s.damage_taken as int) + ", time="@ + int_decimal(s.time as int)
        + ", ping="@ + int_decimal(s.ping as int) + ")"@
}

impl PlayerStats {
    /// The statistics of `game_client` at the level time of `current_level`.
    pub fn from_game_client(game_client: &GameClient, current_level: &CurrentLevel) -> (r: PlayerStats)
        requires
            i32::MIN <= current_level.level.time - game_client.game_client.pers.enterTime <= i32::MAX,
        ensures
            r == stats_of(game_client.game_client, current_level.level.time),
    {
        PlayerStats {
            score: game_client.get_score(),
            kills: game_client.get_kills(),
            deaths: game_client.get_deaths(),
            damage_dealt: game_client.get_damage_dealt(),
            damage_taken: game_client.get_damage_taken(),
            time: game_client.get_time_on_team(current_level),
            ping: game_client.get_ping(),
        }
    }

    /// The text of the statistics.
    pub fn __str__(&self) -> (r: String)
        ensures
            r@ == player_stats_text(*self),
    {
        let mut text = String::from_str("PlayerStats(score=");
        append_decimal(&mut text, self.score as i64);
        text.append(", kills=");
        append_decimal(&mut text, self.kills as i64);
        text.append(", deaths=");
        append_decimal(&mut text, self.deaths as i64);
        text.append(", damage_dealt=");
        append_decimal(&mut text, self.damage_dealt as i64);
        text.append(", damage_taken=");
        append_decimal(&mut text, self.damage_taken as i64);
        text.append(", time=");
        append_decimal(&mut text, self.time as i64);
        text.append(", ping=");
        append_decimal(&mut text, self.ping as i64);
        text.append(")");
        text
    }

    /// The representation of the statistics: the same text.
    pub fn __repr__(&self) -> (r: String)
        ensures
            r@ == player_stats_text(*self),
    {
        self.__str__()
    }
}

/// The statistics of the player at `client_id`, where the entity has a player.
pub fn player_stats(
    maxclients: Option<i32>,
    client_id: i32,
    entity: Option<&GameEntity>,
    current_level: &CurrentLevel,
) -> (r: Result<Option<PlayerStats>, PythonError>)
    requires
        match entity {
            Some(e) => match e.gentity_t.client {
                Some(c) => i32::MIN <= current_level.level.time - c.pers.enterTime <= i32::MAX,
                None => true,
            },
            None => true,
        },
    ensures
        client_id_checked(
            maxclients,
            client_id,
            false,
            match r {
                Ok(_) => Ok(()),
                Err(e) => Err(e),
            },
        ),
        r is Ok ==> r == Ok::<Option<PlayerStats>, PythonError>(
            match entity {
                Some(e) => match e.gentity_t.client {
                    Some(c) => Some(stats_of(c, current_level.level.time)),
                    None => None,
                },
                None => None,
            },
        ),
{
    match check_client_id(maxclients, client_id, false) {
        Err(e) => return Err(e),
        Ok(()) => {},
    }
    match entity {
        None => Ok(None),
        Some(game_entity) => match game_entity.get_game_client() {
            Ok(game_client) => Ok(Some(PlayerStats::from_game_client(&game_client, current_level))),
            Err(_) => Ok(None),
        },
    }
}

/// What the engine holds for one client id: the client slot and the game
/// entity, each `None` where the engine has none.
#[derive(Debug)]
pub struct PlayerSlot {
    pub client: Option<Client>,
    pub entity: Option<GameEntity>,
}

/// Whether the slot's client is active.
pub open spec fn slot_active(slot: PlayerSlot) -> bool {
    slot.client matches Some(c) && c.state == clientState_t::CS_ACTIVE
}

/// The slot after its player voted `pass`.
pub open spec fn voted_slot(slot: PlayerSlot, pass: bool) -> PlayerSlot {
    PlayerSlot {
        entity: with_entity_client(
            slot.entity,
            GClient {
                pers: crate::game_client::ClientPersistant {
                    voteState: if pass {
                        crate::quake_types::voteState_t::VOTE_YES
                    } else {
                        crate::quake_types::voteState_t::VOTE_NO
                    },
                    ..entity_client(slot.entity)->0.pers
                },
                ..entity_client(slot.entity)->0
            },
        ),
        ..slot
    }
}

/// Whether the player of slot `i` votes when a vote is forced, with `max`
/// client slots: an active client with a game client in range.
pub open spec fn slot_votes(slot: PlayerSlot, i: int, max: i32) -> bool {
    i < max && slot_active(slot) && entity_client(slot.entity) is Some
}

/// The slot after a forced vote `pass`: its player votes where the slot's
/// client is active and its entity has a game client.
fn vote_in_slot(slot: PlayerSlot, pass: bool) -> (r: PlayerSlot)
    ensures
        r == if slot_active(slot) && entity_client(slot.entity) is Some {
            voted_slot(slot, pass)
        } else {
            slot
        },
{
    let active = match &slot.client {
        Some(c) => c.get_state() == clientState_t::CS_ACTIVE,
        None => false,
    };
    if !active {
        return slot;
    }
    match slot.entity {
        Some(game_entity) => match game_entity.gentity_t.client {
            Some(client) => {
                let mut game_client = GameClient { game_client: client };
                game_client.set_vote_state(pass);
                let mut updated = game_entity;
                updated.gentity_t.client = Some(game_client.game_client);
                PlayerSlot { client: slot.client, entity: Some(updated) }
            },
            None => PlayerSlot { client: slot.client, entity: Some(game_entity) },
        },
        None => PlayerSlot { client: slot.client, entity: None },
    }
}

/// Forces the running vote: every active player with a game client votes
/// `pass`. False where no vote is running, an error where no engine is loaded.
pub fn force_vote(vote_running: bool, maxclients: Option<i32>, slots: &mut Vec<PlayerSlot>, pass: bool) -> (r: Result<
    bool,
    PythonError,
>)
    ensures
        !vote_running ==> r == Ok::<bool, PythonError>(false) && final(slots)@ == old(slots)@,
        vote_running && maxclients is None ==> (r matches Err(PythonError::EnvironmentError(m)) && m@
            == "main quake live engine not set"@) && final(slots)@ == old(slots)@,
        vote_running && maxclients is Some ==> r == Ok::<bool, PythonError>(true),
        final(slots)@.len() == old(slots)@.len(),
        vote_running && maxclients is Some ==> forall|i: int|
            0 <= i < old(slots)@.len() ==> #[trigger] final(slots)@[i] == if slot_votes(
                old(slots)@[i],
                i,
                maxclients->0,
            ) {
                voted_slot(old(slots)@[i], pass)
            } else {
                old(slots)@[i]
            },
{
    if !vote_running {
        return Ok(false);
    }
    let max = match maxclients {
        None => return Err(PythonError::EnvironmentError(String::from_str("main quake live engine not set"))),
        Some(m) => m,
    };
    let ghost before = slots@;
    let mut i: usize = 0;
    while i < slots.len()
        invariant
            i <= slots@.len(),
            slots@.len() == before.len(),
            forall|j: int| i <= j < before.len() ==> #[trigger] slots@[j] == before[j],
            forall|j: int|
                0 <= j < i ==> #[trigger] slots@[j] == if slot_votes(before[j], j, max) {
                    voted_slot(before[j], pass)
                } else {
                    before[j]
                },
        decreases slots@.len() - i,
    {
        let in_range: bool = max > 0 && (i as u64) < (max as u64);
        if in_range {
            let slot = slots.remove(i);
            let voted = vote_in_slot(slot, pass);
            slots.insert(i, voted);
        }
        proof {
            assert(in_range <==> i < max);
        }
        i = i + 1;
    }
    Ok(true)
}

/// The information about the players whose client slot is not free, among
/// the slots of ids below `n`, by ascending id.
pub open spec fn players_info(slots: Seq<PlayerSlot>, n: int) -> Seq<PlayerInfoView>
    decreases n,
{
    if n <= 0 {
        Seq::empty()
    } else {
        let before = players_info(slots, n - 1);
        match slots[n - 1].client {
            Some(c) => if c.state != clientState_t::CS_FREE {
                before.push(player_info_of((n - 1) as i32, slots[n - 1].entity, Some(c)))
            } else {
                before
            },
            None => before,
        }
    }
}

/// Whether slot `i` holds a client whose slot is not free.
pub open spec fn slot_taken(slots: Seq<PlayerSlot>, i: int) -> bool {
    slots[i].client is Some && slots[i].client->0.state != clientState_t::CS_FREE
}

/// The players listed among the first `n` slots are those of the taken
/// slots, each once, by ascending client id, each with its own information.
pub proof fn law_players_info_lists_taken_slots(slots: Seq<PlayerSlot>, n: int)
    requires
        0 <= n <= slots.len(),
        n <= i32::MAX,
    ensures
        forall|k: int|
            0 <= k < players_info(slots, n).len() ==> {
                let id = (#[trigger] players_info(slots, n)[k]).client_id as int;
                &&& 0 <= id < n
                &&& slots[id].client is Some
                &&& slots[id].client->0.state != clientState_t::CS_FREE
                &&& players_info(slots, n)[k] == player_info_of(id as i32, slots[id].entity, slots[id].client)
            },
        forall|i: int|
            0 <= i < n && slots[i].client is Some && (#[trigger] slots[i]).client->0.state != clientState_t::CS_FREE
                ==> exists|k: int|
                0 <= k < players_info(slots, n).len() && (#[trigger] players_info(slots, n)[k]).client_id == i,
        forall|j: int, k: int|
            0 <= j < k < players_info(slots, n).len() ==> (#[trigger] players_info(slots, n)[j]).client_id
                < (#[trigger] players_info(slots, n)[k]).client_id,
    decreases n,
{
    if n > 0 {
        law_players_info_lists_taken_slots(slots, n - 1);
        let before = players_info(slots, n - 1);
        let now = players_info(slots, n);
        assert forall|k: int| 0 <= k < before.len() implies #[trigger] now[k] == before[k] by {}
        assert forall|i: int|
            0 <= i < n && slots[i].client is Some && (#[trigger] slots[i]).client->0.state != clientState_t::CS_FREE
                implies exists|k: int| 0 <= k < now.len() && (#[trigger] now[k]).client_id == i by {
            if i < n - 1 {
                let k = choose|k: int| 0 <= k < before.len() && (#[trigger] before[k]).client_id == i;
                assert(now[k] == before[k]);
            } else {
                assert(now[now.len() - 1].client_id == i);
            }
        }
    }
}

/// The number of slots that the engine hands out for `maxclients` client
/// ids, with `len` slots held.
pub open spec fn slots_read(maxclients: i32, len: int) -> int {
    if maxclients <= 0 {
        0
    } else if maxclients < len {
        maxclients as int
    } else {
        len
    }
}

/// The information about every player whose client slot is not free, by
/// ascending client id; slot `i` of `slots` is the one of client id `i`.
pub fn get_players_info(maxclients: Option<i32>, slots: &Vec<PlayerSlot>) -> (r: Result<Vec<Option<PlayerInfo>>, PythonError>)
    ensures
        maxclients is None ==> (r matches Err(PythonError::EnvironmentError(m)) && m@
            == "main quake live engine not set"@),
        maxclients matches Some(max) ==> (r matches Ok(infos) && infos@.len() == players_info(
            slots@,
            slots_read(max, slots@.len() as int),
        ).len() && forall|k: int|
            0 <= k < infos@.len() ==> ((#[trigger] infos@[k]) matches Some(info) && info@ == players_info(
                slots@,
                slots_read(max, slots@.len() as int),
            )[k])),
        // Every entry is the information of a slot below the number of
        // clients whose client is not free (a connecting, primed, active or
        // zombie client), by ascending client id.
        r matches Ok(infos) ==> forall|k: int|
            0 <= k < infos@.len() ==> {
                &&& (#[trigger] infos@[k]) is Some
                &&& 0 <= infos@[k]->0.client_id < slots_read(maxclients->0, slots@.len() as int)
                &&& slots@[infos@[k]->0.client_id as int].client is Some
                &&& slots@[infos@[k]->0.client_id as int].client->0.state != clientState_t::CS_FREE
                &&& infos@[k]->0@ == player_info_of(
                    infos@[k]->0.client_id,
                    slots@[infos@[k]->0.client_id as int].entity,
                    slots@[infos@[k]->0.client_id as int].client,
                )
            },
        r matches Ok(infos) ==> forall|j: int, k: int|
            0 <= j < k < infos@.len() ==> (#[trigger] infos@[j])->0.client_id < (#[trigger] infos@[k])->0.client_id,
        // Every slot below the number of clients whose client is not free is listed.
        r matches Ok(infos) ==> forall|i: int|
            0 <= i < slots_read(maxclients->0, slots@.len() as int) && slots@[i].client is Some && (
            #[trigger] slots@[i]).client->0.state != clientState_t::CS_FREE ==> exists|k: int|
                0 <= k < infos@.len() && (#[trigger] infos@[k]) is Some && infos@[k]->0.client_id == i,
{
    let max = match maxclients {
        None => return Err(PythonError::EnvironmentError(String::from_str("main quake live engine not set"))),
        Some(m) => m,
    };
    let count: usize = if max <= 0 {
        0
    } else if (max as usize) < slots.len() {
        max as usize
    } else {
        slots.len()
    };
    let mut infos: Vec<Option<PlayerInfo>> = Vec::new();
    let mut i: usize = 0;
    while i < count
        invariant
            i <= count,
            count == slots_read(max, slots@.len() as int),
            count <= slots@.len(),
            count <= i32::MAX,
            infos@.len() == players_info(slots@, i as int).len(),
            forall|k: int|
                0 <= k < infos@.len() ==> ((#[trigger] infos@[k]) matches Some(info) && info@ == players_info(
                    slots@,
                    i as int,
                )[k]),
        decreases count - i,
    {
        let slot = &slots[i];
        match &slot.client {
            Some(c) => {
                if c.get_state() != clientState_t::CS_FREE {
                    let entity = match &slot.entity {
                        Some(e) => Some(e),
                        None => None,
                    };
                    let info = player_info_from(i as i32, entity, Some(c));
                    infos.push(Some(info));
                }
            },
            None => {},
        }
        i = i + 1;
    }
    proof {
        let n = count as int;
        let listed = players_info(slots@, n);
        law_players_info_lists_taken_slots(slots@, n);
        assert forall|k: int| 0 <= k < infos@.len() implies #[trigger] infos@[k] is Some && infos@[k]->0@
            == listed[k] by {}
        assert forall|i: int|
            0 <= i < n && slots@[i].client is Some && (#[trigger] slots@[i]).client->0.state
                != clientState_t::CS_FREE implies exists|k: int|
            0 <= k < infos@.len() && (#[trigger] infos@[k]) is Some && infos@[k]->0.client_id == i by {
            let k = choose|k: int| 0 <= k < listed.len() && (#[trigger] listed[k]).client_id == i;
            assert(infos@[k]->0@ == listed[k]);
        }
    }
    Ok(infos)
}

/// How a console variable is written.
#[derive(Clone, Copy, Debug, PartialEq, Eq, Structural)]
pub enum CvarWrite {
    /// The variable does not exist: it is created with the given flags.
    Create(Option<i32>),
    /// The variable exists: its value is forced, with the flags set where they are -1.
    ForceSet(bool),
}

/// Sets a console variable, with `cvar_exists` telling whether the engine
/// has it: an error where no engine is loaded; true where it is created,
/// false where an existing one is set.
pub fn set_cvar(engine_loaded: bool, cvar_exists: bool, flags: Option<i32>) -> (r: Result<(bool, CvarWrite), PythonError>)
    ensures
        !engine_loaded ==> (r matches Err(PythonError::EnvironmentError(m)) && m@
            == "main quake live engine not set"@),
        engine_loaded && !cvar_exists ==> r == Ok::<(bool, CvarWrite), PythonError>((true, CvarWrite::Create(flags))),
        engine_loaded && cvar_exists ==> r == Ok::<(bool, CvarWrite), PythonError>(
            (false, CvarWrite::ForceSet(flags == Some(-1i32))),
        ),
{
    if !engine_loaded {
        return Err(PythonError::EnvironmentError(String::from_str("main quake live engine not set")));
    }
    if !cvar_exists {
        Ok((true, CvarWrite::Create(flags)))
    } else {
        let forced = match flags {
            Some(f) => f == -1,
            None => false,
        };
        Ok((false, CvarWrite::ForceSet(forced)))
    }
}

/// Whether the player at `client_id` can be moved: true where the engine
/// holds an entity with a player for it. Position and velocity are floating
/// point values that the engine keeps; the caller writes them where this holds.
fn client_to_move(maxclients: Option<i32>, client_id: i32, entity: Option<&GameEntity>) -> (r: Result<bool, PythonError>)
    ensures
        checked_as_client_id(maxclients, client_id, r),
        r is Ok ==> r == Ok::<bool, PythonError>(
            match entity {
                Some(e) => e.gentity_t.client is Some,
                None => false,
            },
        ),
{
    match check_client_id(maxclients, client_id, false) {
        Err(e) => return Err(e),
        Ok(()) => {},
    }
    match entity {
        Some(e) => Ok(e.gentity_t.client.is_some()),
        None => Ok(false),
    }
}

/// Whether the position of the player at `client_id` is set (see
/// `client_to_move`): true where the engine holds an entity with a player.
pub fn set_position(maxclients: Option<i32>, client_id: i32, entity: Option<&GameEntity>) -> (r: Result<bool, PythonError>)
    ensures
        checked_as_client_id(maxclients, client_id, r),
        r is Ok ==> r == Ok::<bool, PythonError>(
            match entity {
                Some(e) => e.gentity_t.client is Some,
                None => false,
            },
        ),
{
    client_to_move(maxclients, client_id, entity)
}

/// Whether the velocity of the player at `client_id` is set (see
/// `client_to_move`): true where the engine holds an entity with a player.
pub fn set_velocity(maxclients: Option<i32>, client_id: i32, entity: Option<&GameEntity>) -> (r: Result<bool, PythonError>)
    ensures
        checked_as_client_id(maxclients, client_id, r),
        r is Ok ==> r == Ok::<bool, PythonError>(
            match entity {
                Some(e) => e.gentity_t.client is Some,
                None => false,
            },
        ),
{
    client_to_move(maxclients, client_id, entity)
}

/// The number of configstrings the engine holds.
pub const MAX_CONFIGSTRINGS: u32 = 1024;

/// Checks a configstring index: a value error outside the engine's configstrings.
fn check_configstring_index(config_id: u32) -> (r: Result<(), PythonError>)
    ensures
        config_id < MAX_CONFIGSTRINGS ==> r is Ok,
        config_id >= MAX_CONFIGSTRINGS ==> (r matches Err(PythonError::ValueError(m)) && m@
            == "index needs to be a number from 0 to 1023."@),
{
    if config_id >= MAX_CONFIGSTRINGS {
        return Err(PythonError::ValueError(String::from_str("index needs to be a number from 0 to 1023.")));
    }
    Ok(())
}

/// Whether the configstring `config_id` is read: the index must be one of
/// the engine's configstrings, and an engine must be loaded.
pub fn get_configstring(config_id: u32, engine_loaded: bool) -> (r: Result<(), PythonError>)
    ensures
        config_id >= MAX_CONFIGSTRINGS ==> (r matches Err(PythonError::ValueError(m)) && m@
            == "index needs to be a number from 0 to 1023."@),
        config_id < MAX_CONFIGSTRINGS && !engine_loaded ==> (r matches Err(PythonError::EnvironmentError(m)) && m@
            == "main quake live engine not set"@),
        config_id < MAX_CONFIGSTRINGS && engine_loaded ==> r is Ok,
{
    match check_configstring_index(config_id) {
        Err(e) => return Err(e),
        Ok(()) => {},
    }
    if !engine_loaded {
        return Err(PythonError::EnvironmentError(String::from_str("main quake live engine not set")));
    }
    Ok(())
}

/// Whether the configstring `config_id` is set (through the configstring
/// hook): the index must be one of the engine's configstrings.
pub fn set_configstring(config_id: u32) -> (r: Result<(), PythonError>)
    ensures
        config_id < MAX_CONFIGSTRINGS ==> r is Ok,
        config_id >= MAX_CONFIGSTRINGS ==> (r matches Err(PythonError::ValueError(m)) && m@
            == "index needs to be a number from 0 to 1023."@),
{
    check_configstring_index(config_id)
}

/// The message that printing `text` on the console hands to the print hook:
/// the text and a line break.
pub fn console_print(text: &str) -> (r: String)
    ensures
        r@ == text@ + "\n"@,
{
    let mut message = String::from_str(text);
    message.append("\n");
    message
}

/// The error where no engine is loaded.
fn engine_required(engine_loaded: bool) -> (r: Result<(), PythonError>)
    ensures
        engine_loaded ==> r is Ok,
        !engine_loaded ==> (r matches Err(PythonError::EnvironmentError(m)) && m@ == "main quake live engine not set"@),
{
    if engine_loaded {
        Ok(())
    } else {
        Err(PythonError::EnvironmentError(String::from_str("main quake live engine not set")))
    }
}

/// Whether a console command is executed: only where an engine is loaded.
pub fn console_command(engine_loaded: bool) -> (r: Result<(), PythonError>)
    ensures
        engine_loaded ==> r is Ok,
        !engine_loaded ==> (r matches Err(PythonError::EnvironmentError(m)) && m@ == "main quake live engine not set"@),
{
    engine_required(engine_loaded)
}

/// The value of a console variable, with `found` its value where the engine
/// has it: an error where no engine is loaded.
pub fn get_cvar(engine_loaded: bool, found: Option<String>) -> (r: Result<Option<String>, PythonError>)
    ensures
        engine_loaded ==> r == Ok::<Option<String>, PythonError>(found),
        !engine_loaded ==> (r matches Err(PythonError::EnvironmentError(m)) && m@ == "main quake live engine not set"@),
{
    match engine_required(engine_loaded) {
        Err(e) => Err(e),
        Ok(()) => Ok(found),
    }
}

/// Whether a console variable gets limits: only where an engine is loaded.
pub fn set_cvar_limit(engine_loaded: bool) -> (r: Result<(), PythonError>)
    ensures
        engine_loaded ==> r is Ok,
        !engine_loaded ==> (r matches Err(PythonError::EnvironmentError(m)) && m@ == "main quake live engine not set"@),
{
    engine_required(engine_loaded)
}

/// Whether a console command of the scripts is added: only where an engine
/// is loaded.
pub fn add_console_command(engine_loaded: bool) -> (r: Result<(), PythonError>)
    ensures
        engine_loaded ==> r is Ok,
        !engine_loaded ==> (r matches Err(PythonError::EnvironmentError(m)) && m@ == "main quake live engine not set"@),
{
    engine_required(engine_loaded)
}

} // verus!
