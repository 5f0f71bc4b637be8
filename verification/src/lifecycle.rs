//! The life of the scripting interpreter: whether the extension runs in the
//! dedicated server, the registration of the scripts' event handlers, and the
//! states of the interpreter through its initialization and reloads.
use vstd::prelude::*;

use crate::python_api::PythonError;

verus! {

/// The name the dedicated server's program ends with.
pub const QZERODED: &'static str = "qzeroded.x64";

/// Whether the program named `progname` (the first argument the process got,
/// if any) is the dedicated server: the extension initializes only there.
pub fn runs_in_dedicated_server(progname: Option<&str>) -> (r: bool)
    ensures
        r == match progname {
            Some(name) => name@.len() >= 12 && name@.subrange(name@.len() - 12, name@.len() as int)
                == "qzeroded.x64"@,
            None => false,
        },
{
    proof {
        reveal_strlit("qzeroded.x64");
    }
    match progname {
        None => false,
        Some(name) => {
            let length = name.unicode_len();
            if length < 12 {
                return false;
            }
            let tail = name.substring_char(length - 12, length);
            let expected = String::from_str(QZERODED);
            let tail_text = String::from_str(tail);
            tail_text == expected
        },
    }
}

/// The event handlers that scripts register, one per event.
#[derive(Clone, Copy, Debug, PartialEq, Eq, Structural)]
pub enum HandlerSlot {
    ClientCommand,
    ServerCommand,
    Frame,
    PlayerConnect,
    PlayerLoaded,
    PlayerDisconnect,
    CustomCommand,
    NewGame,
    SetConfigstring,
    Rcon,
    ConsolePrint,
    PlayerSpawn,
    KamikazeUse,
    KamikazeExplode,
    Damage,
}

/// The handler that the event named `event` is handed to, if any.
pub open spec fn handler_slot_of(event: Seq<char>) -> Option<HandlerSlot> {
    if event == "client_command"@ {
        Some(HandlerSlot::ClientCommand)
    } else if event == "server_command"@ {
        Some(HandlerSlot::ServerCommand)
    } else if event == "frame"@ {
        Some(HandlerSlot::Frame)
    } else if event == "player_connect"@ {
        Some(HandlerSlot::PlayerConnect)
    } else if event == "player_loaded"@ {
        Some(HandlerSlot::PlayerLoaded)
    } else if event == "player_disconnect"@ {
        Some(HandlerSlot::PlayerDisconnect)
    } else if event == "custom_command"@ {
        Some(HandlerSlot::CustomCommand)
    } else if event == "new_game"@ {
        Some(HandlerSlot::NewGame)
    } else if event == "set_configstring"@ {
        Some(HandlerSlot::SetConfigstring)
    } else if event == "rcon"@ {
        Some(HandlerSlot::Rcon)
    } else if event == "console_print"@ {
        Some(HandlerSlot::ConsolePrint)
    } else if event == "player_spawn"@ {
        Some(HandlerSlot::PlayerSpawn)
    } else if event == "kamikaze_use"@ {
        Some(HandlerSlot::KamikazeUse)
    } else if event == "kamikaze_explode"@ {
        Some(HandlerSlot::KamikazeExplode)
    } else if event == "damage"@ {
        Some(HandlerSlot::Damage)
    } else {
        None
    }
}

/// Compares a text with a literal.
fn text_is(text: &str, literal: &str) -> (r: bool)
    ensures
        r == (text@ == literal@),
{
    String::from_str(text) == String::from_str(literal)
}

/// The handler that the event named `event` is handed to, if any.
pub fn handler_slot(event: &str) -> (r: Option<HandlerSlot>)
    ensures
        r == handler_slot_of(event@),
{
    if text_is(event, "client_command") {
        Some(HandlerSlot::ClientCommand)
    } else if text_is(event, "server_command") {
        Some(HandlerSlot::ServerCommand)
    } else if text_is(event, "frame") {
        Some(HandlerSlot::Frame)
    } else if text_is(event, "player_connect") {
        Some(HandlerSlot::PlayerConnect)
    } else if text_is(event, "player_loaded") {
        Some(HandlerSlot::PlayerLoaded)
    } else if text_is(event, "player_disconnect") {
        Some(HandlerSlot::PlayerDisconnect)
    } else if text_is(event, "custom_command") {
        Some(HandlerSlot::CustomCommand)
    } else if text_is(event, "new_game") {
        Some(HandlerSlot::NewGame)
    } else if text_is(event, "set_configstring") {
        Some(HandlerSlot::SetConfigstring)
    } else if text_is(event, "rcon") {
        Some(HandlerSlot::Rcon)
    } else if text_is(event, "console_print") {
        Some(HandlerSlot::ConsolePrint)
    } else if text_is(event, "player_spawn") {
        Some(HandlerSlot::PlayerSpawn)
    } else if text_is(event, "kamikaze_use") {
        Some(HandlerSlot::KamikazeUse)
    } else if text_is(event, "kamikaze_explode") {
        Some(HandlerSlot::KamikazeExplode)
    } else if text_is(event, "damage") {
        Some(HandlerSlot::Damage)
    } else {
        None
    }
}

/// Where a handler a script hands in for the event named `event` is stored:
/// a handler that cannot be called is refused with a type error, an unknown
/// event with a value error. `handler_callable` is `None` where the script
/// hands in no handler (which clears the event's handler).
pub fn register_handler(event: &str, handler_callable: Option<bool>) -> (r: Result<HandlerSlot, PythonError>)
    ensures
        handler_callable == Some(false) ==> (r matches Err(PythonError::TypeError(m)) && m@
            == "The handler must be callable."@),
        handler_callable != Some(false) ==> match handler_slot_of(event@) {
            Some(slot) => r == Ok::<HandlerSlot, PythonError>(slot),
            None => r matches Err(PythonError::ValueError(m)) && m@ == "Unsupported event."@,
        },
{
    if handler_callable == Some(false) {
        return Err(PythonError::TypeError(String::from_str("The handler must be callable.")));
    }
    match handler_slot(event) {
        Some(slot) => Ok(slot),
        None => Err(PythonError::ValueError(String::from_str("Unsupported event."))),
    }
}

/// Every handler slot, in the order the handlers are cleared on a reload.
pub open spec fn all_handler_slots() -> Seq<HandlerSlot> {
    seq![
        HandlerSlot::ClientCommand,
        HandlerSlot::ServerCommand,
        HandlerSlot::Frame,
        HandlerSlot::PlayerConnect,
        HandlerSlot::PlayerLoaded,
        HandlerSlot::PlayerDisconnect,
        HandlerSlot::CustomCommand,
        HandlerSlot::NewGame,
        HandlerSlot::SetConfigstring,
        HandlerSlot::Rcon,
        HandlerSlot::ConsolePrint,
        HandlerSlot::PlayerSpawn,
        HandlerSlot::KamikazeUse,
        HandlerSlot::KamikazeExplode,
        HandlerSlot::Damage,
    ]
}

/// Why the interpreter could not be set up or reloaded.
#[derive(Clone, Copy, Debug, PartialEq, Eq, Structural)]
pub enum PythonInitializationError {
    /// The loader script failed.
    MainScriptError,
    /// The interpreter was set up already.
    AlreadyInitialized,
    /// The interpreter was not set up yet.
    NotInitializedError,
}

/// Whether setting up the interpreter may go on, with `initialized` telling
/// whether it is set up: it may not be set up twice.
pub open spec fn initialize_check(initialized: bool) -> Result<(), PythonInitializationError> {
    if initialized {
        Err(PythonInitializationError::AlreadyInitialized)
    } else {
        Ok(())
    }
}

/// Whether setting up the interpreter may go on (see `initialize_check`).
pub fn pyminqlx_initialize(initialized: bool) -> (r: Result<(), PythonInitializationError>)
    ensures
        r == initialize_check(initialized),
{
    if initialized {
        Err(PythonInitializationError::AlreadyInitialized)
    } else {
        Ok(())
    }
}

/// Whether the interpreter is set up, and what comes back, once the loader
/// script ran on a setup or a reload: it is set up exactly where the script
/// succeeded.
pub open spec fn after_loader(loader_succeeded: bool) -> (bool, Result<(), PythonInitializationError>) {
    if loader_succeeded {
        (true, Ok(()))
    } else {
        (false, Err(PythonInitializationError::MainScriptError))
    }
}

/// What follows once the loader script ran (see `after_loader`).
pub fn loader_finished(loader_succeeded: bool) -> (r: (bool, Result<(), PythonInitializationError>))
    ensures
        r == after_loader(loader_succeeded),
{
    if loader_succeeded {
        (true, Ok(()))
    } else {
        (false, Err(PythonInitializationError::MainScriptError))
    }
}

/// Whether reloading the interpreter may go on, with `initialized` telling
/// whether it is set up: it must be; then every handler is cleared before the
/// loader runs again.
pub open spec fn reload_check(initialized: bool) -> Result<Seq<HandlerSlot>, PythonInitializationError> {
    if initialized {
        Ok(all_handler_slots())
    } else {
        Err(PythonInitializationError::NotInitializedError)
    }
}

/// Whether reloading the interpreter may go on, and the handlers it clears
/// (see `reload_check`).
pub fn pyminqlx_reload(initialized: bool) -> (r: Result<Vec<HandlerSlot>, PythonInitializationError>)
    ensures
        match reload_check(initialized) {
            Ok(slots) => r matches Ok(v) && v@ == slots,
            Err(e) => r == Err::<Vec<HandlerSlot>, PythonInitializationError>(e),
        },
{
    if !initialized {
        return Err(PythonInitializationError::NotInitializedError);
    }
    let slots = vec![
        HandlerSlot::ClientCommand,
        HandlerSlot::ServerCommand,
        HandlerSlot::Frame,
        HandlerSlot::PlayerConnect,
        HandlerSlot::PlayerLoaded,
        HandlerSlot::PlayerDisconnect,
        HandlerSlot::CustomCommand,
        HandlerSlot::NewGame,
        HandlerSlot::SetConfigstring,
        HandlerSlot::Rcon,
        HandlerSlot::ConsolePrint,
        HandlerSlot::PlayerSpawn,
        HandlerSlot::KamikazeUse,
        HandlerSlot::KamikazeExplode,
        HandlerSlot::Damage,
    ];
    assert(slots@ =~= all_handler_slots());
    Ok(slots)
}

/// The interpreter is set up at most once: once a loader run succeeded, a
/// further setup is refused, while a reload goes on.
pub proof fn law_setup_once()
    ensures
        initialize_check(after_loader(true).0) == Err::<(), PythonInitializationError>(
            PythonInitializationError::AlreadyInitialized,
        ),
        reload_check(after_loader(true).0) is Ok,
{
}

/// A failed loader run leaves the interpreter not set up: a reload is then
/// refused, and a new setup may go on.
pub proof fn law_failed_loader_resets()
    ensures
        reload_check(after_loader(false).0) == Err::<Seq<HandlerSlot>, PythonInitializationError>(
            PythonInitializationError::NotInitializedError,
        ),
        initialize_check(after_loader(false).0) == Ok::<(), PythonInitializationError>(()),
{
}

/// A reload clears every handler that a script can register.
pub proof fn law_reload_clears_every_handler(event: Seq<char>)
    requires
        handler_slot_of(event) is Some,
    ensures
        reload_check(true) matches Ok(slots) && slots.contains(handler_slot_of(event)->0),
{
    let slot = handler_slot_of(event)->0;
    let slots = all_handler_slots();
    assert(slots[0] == HandlerSlot::ClientCommand);
    assert(slots[1] == HandlerSlot::ServerCommand);
    assert(slots[2] == HandlerSlot::Frame);
    assert(slots[3] == HandlerSlot::PlayerConnect);
    assert(slots[4] == HandlerSlot::PlayerLoaded);
    assert(slots[5] == HandlerSlot::PlayerDisconnect);
    assert(slots[6] == HandlerSlot::CustomCommand);
    assert(slots[7] == HandlerSlot::NewGame);
    assert(slots[8] == HandlerSlot::SetConfigstring);
    assert(slots[9] == HandlerSlot::Rcon);
    assert(slots[10] == HandlerSlot::ConsolePrint);
    assert(slots[11] == HandlerSlot::PlayerSpawn);
    assert(slots[12] == HandlerSlot::KamikazeUse);
    assert(slots[13] == HandlerSlot::KamikazeExplode);
    assert(slots[14] == HandlerSlot::Damage);
}

} // verus!
