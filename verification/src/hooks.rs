//! The decisions that the engine hooks take around the scripting handlers:
//! whether a command, configstring or print is shown to a handler, and what
//! the engine goes on with afterwards.
use vstd::prelude::*;
use vstd::string::StringSliceAdditionalSpecFns;

use crate::client::Client;
use crate::game_client::GameClient;
use crate::game_entity::GameEntity;

verus! {

/// The first step of a hooked command: drop it, ask a handler about it
/// (naming the client it concerns, if any), or hand it on to the engine as it is.
#[derive(Debug, PartialEq, Eq)]
pub enum CommandStep {
    Skip,
    Dispatch { client_id: Option<i32> },
    Forward,
}

/// What a hooked client command does: nothing where no engine is loaded or
/// the command is empty; where the client is known to be fine and has a
/// game entity, the client command handler is asked; otherwise the command
/// goes to the engine unchanged.
pub fn shinqlx_execute_client_command(
    engine_loaded: bool,
    client: Option<&Client>,
    cmd: &str,
    client_ok: bool,
) -> (r: CommandStep)
    ensures
        !engine_loaded || cmd@.len() == 0 ==> r == CommandStep::Skip,
        engine_loaded && cmd@.len() > 0 ==> r == (if client_ok && client is Some && client->0.has_gentity {
            CommandStep::Dispatch { client_id: Some(client->0.client_id) }
        } else {
            CommandStep::Forward
        }),
{
    if !engine_loaded {
        return CommandStep::Skip;
    }
    if cmd.unicode_len() == 0 {
        return CommandStep::Skip;
    }
    match client {
        Some(safe_client) => {
            if client_ok && safe_client.has_gentity() {
                CommandStep::Dispatch { client_id: Some(safe_client.get_client_id()) }
            } else {
                CommandStep::Forward
            }
        },
        None => CommandStep::Forward,
    }
}

/// What a hooked server command does: nothing where no engine is loaded or
/// the command is empty; the server command handler is asked about commands
/// to every client and about those to a client with a game entity; commands
/// to a client without one go to the engine unchanged.
pub fn shinqlx_send_server_command(engine_loaded: bool, client: Option<&Client>, cmd: &str) -> (r: CommandStep)
    ensures
        !engine_loaded || cmd@.len() == 0 ==> r == CommandStep::Skip,
        engine_loaded && cmd@.len() > 0 ==> r == match client {
            None => CommandStep::Dispatch { client_id: None },
            Some(c) => if c.has_gentity {
                CommandStep::Dispatch { client_id: Some(c.client_id) }
            } else {
                CommandStep::Forward
            },
        },
{
    if !engine_loaded {
        return CommandStep::Skip;
    }
    if cmd.unicode_len() == 0 {
        return CommandStep::Skip;
    }
    match client {
        Some(safe_client) => {
            if safe_client.has_gentity() {
                CommandStep::Dispatch { client_id: Some(safe_client.get_client_id()) }
            } else {
                CommandStep::Forward
            }
        },
        None => CommandStep::Dispatch { client_id: None },
    }
}

/// What a command that a handler was asked about goes on as: the handler's
/// result where it kept one that is not empty; nothing otherwise.
pub fn passed_on_command(dispatched: Option<String>) -> (r: Option<String>)
    ensures
        r == match dispatched {
            Some(s) => if s@.len() > 0 {
                Some(s)
            } else {
                None
            },
            None => None,
        },
{
    match dispatched {
        Some(s) => {
            if s.unicode_len() > 0 {
                Some(s)
            } else {
                None
            }
        },
        None => None,
    }
}

/// Whether a hooked console print is shown to the console print handler:
/// only where an engine is loaded.
pub fn shinqlx_com_printf(engine_loaded: bool) -> (r: bool)
    ensures
        r == engine_loaded,
{
    engine_loaded
}

/// What the engine prints after the console print handler's result: the
/// message as it was where the handler let it pass, nothing where it stopped it.
pub fn printed_message(msg: &str, dispatched: Option<String>) -> (r: Option<String>)
    ensures
        match r {
            Some(s) => dispatched is Some && s@ == msg@,
            None => dispatched is None,
        },
{
    match dispatched {
        Some(_) => Some(String::from_str(msg)),
        None => None,
    }
}

/// A client being dropped: the disconnect handler is told of the client's
/// id and the reason, then the engine disconnects the client with the reason.
#[derive(Debug, PartialEq, Eq)]
pub struct ClientDrop {
    pub client_id: i32,
    pub reason: String,
}

/// What dropping `client` for `reason` does.
pub fn shinqlx_drop_client(client: &Client, reason: &str) -> (r: ClientDrop)
    ensures
        r.client_id == client.client_id,
        r.reason@ == reason@,
{
    ClientDrop { client_id: client.get_client_id(), reason: String::from_str(reason) }
}

/// The entity id that the spawn handler is told of after the engine spawned
/// a client's entity; nothing where no engine is loaded.
pub fn shinqlx_client_spawn(engine_loaded: bool, game_entity: &GameEntity, g_entities: Option<i64>) -> (r: Option<i32>)
    ensures
        !engine_loaded ==> r is None,
        engine_loaded ==> r == Some(
            match g_entities {
                Some(start) => crate::game_item::item_offset_id(game_entity.address, start),
                None => -1i32,
            },
        ),
{
    if !engine_loaded {
        return None;
    }
    Some(game_entity.get_entity_id(g_entities))
}

/// The first step of a hooked configstring change.
#[derive(Debug, PartialEq, Eq)]
pub enum ConfigstringStep {
    /// The index does not fit the engine's integer type: nothing happens.
    Skip,
    /// The index is one the engine changes every frame: set it without
    /// asking a handler.
    Forward(i32),
    /// Ask the configstring handler, then set what it gives back.
    Dispatch(i32),
}

/// What a hooked configstring change at `index` does: nothing where no
/// engine is loaded; indices 16 and 662 to 669 change every frame and are
/// set without asking a handler.
pub fn shinqlx_set_configstring(engine_loaded: bool, index: u32) -> (r: ConfigstringStep)
    ensures
        !engine_loaded || index > i32::MAX ==> r == ConfigstringStep::Skip,
        engine_loaded && index <= i32::MAX && (index == 16 || 662 <= index < 670) ==> r == ConfigstringStep::Forward(
            index as i32,
        ),
        engine_loaded && index <= i32::MAX && !(index == 16 || 662 <= index < 670) ==> r
            == ConfigstringStep::Dispatch(index as i32),
{
    if !engine_loaded || index > 2147483647u32 {
        return ConfigstringStep::Skip;
    }
    let c_index = index as i32;
    if c_index == 16 || (662 <= c_index && c_index < 670) {
        ConfigstringStep::Forward(c_index)
    } else {
        ConfigstringStep::Dispatch(c_index)
    }
}

/// The configstring index that a hooked engine call with `index` concerns;
/// nothing for a negative index.
pub fn shinqlx_sv_setconfigstring(index: i32) -> (r: Option<u32>)
    ensures
        r == (if index >= 0 { Some(index as u32) } else { None::<u32> }),
{
    if index < 0 {
        None
    } else {
        Some(index as u32)
    }
}

/// What a connecting client is answered.
#[derive(Debug, PartialEq, Eq)]
pub enum ConnectAnswer {
    /// No engine is loaded: the client gets no answer.
    NoEngine,
    /// The connect handler rejected the client, with this text.
    Rejected(String),
    /// The engine's own connection handling decides.
    EngineDecides,
}

/// What a connecting client is answered, given whether it connects for the
/// first time, whether it is a bot, and the connect handler's rejection text
/// (asked only on a first connection): the rejection, for a first connection
/// of a human that the handler rejected; otherwise the engine decides.
pub fn shinqlx_client_connect(engine_loaded: bool, first_time: bool, is_bot: bool, rejection: Option<String>) -> (r:
    ConnectAnswer)
    ensures
        !engine_loaded ==> r == ConnectAnswer::NoEngine,
        engine_loaded ==> r == match rejection {
            Some(text) => if first_time && !is_bot {
                ConnectAnswer::Rejected(text)
            } else {
                ConnectAnswer::EngineDecides
            },
            None => ConnectAnswer::EngineDecides,
        },
{
    if !engine_loaded {
        return ConnectAnswer::NoEngine;
    }
    if first_time {
        match rejection {
            Some(res) => {
                if !is_bot {
                    return ConnectAnswer::Rejected(res);
                }
            },
            None => {},
        }
    }
    ConnectAnswer::EngineDecides
}

/// The text a rejected client is handed by the engine: the bytes of the
/// rejection, ended by a zero byte.
pub fn to_return_string(input: &str) -> (r: Vec<u8>)
    requires
        input.spec_bytes().len() < 1024,
    ensures
        r@ == input.spec_bytes().push(0u8),
{
    let bytes = input.as_bytes();
    let mut r: Vec<u8> = Vec::new();
    let mut i: usize = 0;
    while i < bytes.len()
        invariant
            i <= bytes@.len(),
            bytes@ == input.spec_bytes(),
            r@ == bytes@.take(i as int),
        decreases bytes.len() - i,
    {
        r.push(bytes[i]);
        assert(bytes@.take(i as int + 1) =~= bytes@.take(i as int).push(bytes@[i as int]));
        i = i + 1;
    }
    assert(bytes@.take(bytes@.len() as int) =~= bytes@);
    r.push(0);
    r
}

/// What a started kamikaze does first: the client id that the handlers are
/// told of (the player's, else the owner of the activator, else -1) and
/// whether the kamikaze use handler is told (only for an entity with a
/// player, whose kamikaze flag is cleared).
#[derive(Debug, PartialEq, Eq)]
pub struct KamikazeStart {
    pub client_id: i32,
    pub dispatch_use: bool,
}

/// The client id a kamikaze of `entity` is reported for.
pub open spec fn kamikaze_client_id(entity: GameEntity) -> i32 {
    match entity.gentity_t.client {
        Some(c) => c.ps.clientNum,
        None => match entity.gentity_t.activator {
            Some(a) => a.ownerNum,
            None => -1i32,
        },
    }
}

/// What a started kamikaze of `game_entity` does before the engine starts it.
pub fn shinqlx_g_startkamikaze(game_entity: &mut GameEntity) -> (r: KamikazeStart)
    ensures
        r.client_id == kamikaze_client_id(*old(game_entity)),
        r.dispatch_use == old(game_entity).gentity_t.client is Some,
        final(game_entity).address == old(game_entity).address,
        final(game_entity).gentity_t == (crate::game_entity::GEntity {
            client: match old(game_entity).gentity_t.client {
                Some(c) => Some(
                    c.with_ps(
                        crate::game_client::PlayerState {
                            eFlags: c.ps.eFlags & !crate::quake_types::EF_KAMIKAZE,
                            ..c.ps
                        },
                    ),
                ),
                None => None,
            },
            ..old(game_entity).gentity_t
        }),
{
    let client_id = match game_entity.get_game_client() {
        Ok(game_client) => game_client.get_client_num(),
        Err(_) => match game_entity.get_activator() {
            Ok(activator) => activator.get_owner_num(),
            Err(_) => -1,
        },
    };
    match game_entity.gentity_t.client {
        Some(client) => {
            let mut game_client = GameClient { game_client: client };
            game_client.remove_kamikaze_flag();
            game_entity.gentity_t.client = Some(game_client.game_client);
            KamikazeStart { client_id, dispatch_use: true }
        },
        None => KamikazeStart { client_id, dispatch_use: false },
    }
}

/// The kamikaze explode handler is told of the client id and of whether the
/// entity still has a player after the explosion started; not for id -1.
pub fn kamikaze_explode_report(client_id: i32, has_game_client: bool) -> (r: Option<(i32, bool)>)
    ensures
        r == (if client_id == -1 { None } else { Some((client_id, has_game_client)) }),
{
    if client_id == -1 {
        None
    } else {
        Some((client_id, has_game_client))
    }
}

/// What the damage handler is told after the engine dealt damage.
#[derive(Debug, PartialEq, Eq)]
pub struct DamageReport {
    pub target_id: i32,
    pub attacker_id: Option<i32>,
    pub damage: i32,
    pub dflags: i32,
    pub means_of_death: i32,
}

/// What dealt damage leads to: whether the engine's own damage function is
/// called (with the arguments of the hooked call, unchanged), and, after it,
/// what the damage handler is told.
#[derive(Debug, PartialEq, Eq)]
pub struct DamageStep {
    pub deal_damage: bool,
    pub report: Option<DamageReport>,
}

/// What damage dealt to `target_id` by `attacker_id` leads to: without an
/// engine, nothing; with one, the engine first deals the damage as it was
/// asked to, and then, where the target is an entity, the damage handler is
/// told of the target's entity id, the attacker's where there is one, and the
/// damage's amount, flags and cause.
pub fn shinqlx_g_damage(
    engine_loaded: bool,
    target_id: Option<i32>,
    attacker_id: Option<i32>,
    damage: i32,
    dflags: i32,
    means_of_death: i32,
) -> (r: DamageStep)
    ensures
        r.deal_damage == engine_loaded,
        r.report == (if engine_loaded && target_id is Some {
            Some(DamageReport { target_id: target_id->0, attacker_id, damage, dflags, means_of_death })
        } else {
            None
        }),
{
    if !engine_loaded {
        return DamageStep { deal_damage: false, report: None };
    }
    match target_id {
        None => DamageStep { deal_damage: true, report: None },
        Some(target) => DamageStep {
            deal_damage: true,
            report: Some(DamageReport { target_id: target, attacker_id, damage, dflags, means_of_death }),
        },
    }
}

/// Whether a console command that the engine registers is added, with the
/// engine's static functions set up first where they are not: only a named
/// command, and only where an engine is loaded.
pub fn shinqlx_cmd_addcommand(engine_loaded: bool, cmd: &str) -> (r: bool)
    ensures
        r == (engine_loaded && cmd@.len() > 0),
{
    engine_loaded && cmd.unicode_len() > 0
}

/// Whether the module whose offset the engine reports is the game module
/// that the extension expects (any other is reported as unknown, and its
/// offset is taken all the same).
pub fn shinqlx_sys_setmoduleoffset(module_name: &str) -> (r: bool)
    ensures
        r == (module_name@ == "qagame"@),
{
    String::from_str(module_name) == String::from_str("qagame")
}

/// Whether starting a game tells the new game handler of a restart: where an
/// engine is loaded and the game restarts.
pub fn shinqlx_g_initgame(engine_loaded: bool, restart: i32) -> (r: bool)
    ensures
        r == (engine_loaded && restart != 0),
{
    engine_loaded && restart != 0
}

/// Whether a server is spawned for the map `server` (then telling the new
/// game handler of a game that is no restart): a named map, with an engine loaded.
pub fn shinqlx_sv_spawnserver(engine_loaded: bool, server: &str) -> (r: bool)
    ensures
        r == (engine_loaded && server@.len() > 0),
{
    server.unicode_len() > 0 && engine_loaded
}

/// Whether a client entering the world is reported to the loaded handler:
/// where it has a game entity and was primed before it entered, which is
/// the case only on its first connection to the server.
pub fn shinqlx_sv_cliententerworld(
    engine_loaded: bool,
    client: &Client,
    state_before: crate::quake_types::clientState_t,
) -> (r: bool)
    ensures
        r == (engine_loaded && client.has_gentity && state_before == crate::quake_types::clientState_t::CS_PRIMED),
{
    engine_loaded && client.has_gentity() && state_before == crate::quake_types::clientState_t::CS_PRIMED
}

/// Whether an item touched by `other` is handed to the engine's touch
/// handler: not where `other` is the player who dropped it.
pub fn ShiNQlx_Touch_Item(touched_by_dropper: bool) -> (r: bool)
    ensures
        r == !touched_by_dropper,
{
    !touched_by_dropper
}

/// When a dropped item whose touch handler is switched back is freed: 29
/// seconds after `level_time`.
pub fn ShiNQlx_Switch_Touch_Item(level_time: i32) -> (r: i32)
    requires
        level_time + 29000 <= i32::MAX,
    ensures
        r == level_time + 29000,
{
    level_time + 29000
}

} // verus!
