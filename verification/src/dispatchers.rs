//! How the answers of the scripting handlers are read. A handler is called
//! only where the scripting interface is initialized and a handler for the
//! event is registered; what it returned decides what the engine goes on with.
use vstd::prelude::*;

verus! {

/// What a handler returned.
#[derive(Debug, PartialEq, Eq)]
pub enum HandlerReturn {
    /// The handler raised an error.
    Failed,
    /// The handler returned a text.
    Text(String),
    /// The handler returned a truth value.
    Flag(bool),
    /// The handler returned something else.
    Other,
}

/// What the engine goes on with after a handler was asked about `text`
/// (`outcome` is `None` where no handler was called): the handler's text
/// where it returned one, nothing where it returned false, and `text`
/// unchanged in every other case.
pub open spec fn handled_text(text: Seq<char>, outcome: Option<HandlerReturn>) -> Option<Seq<char>> {
    match outcome {
        Some(HandlerReturn::Text(s)) => Some(s@),
        Some(HandlerReturn::Flag(false)) => None,
        _ => Some(text),
    }
}

/// Reads a handler's answer about `text`.
fn resolve_text_handler(text: &str, outcome: Option<HandlerReturn>) -> (r: Option<String>)
    ensures
        match r {
            Some(s) => handled_text(text@, outcome) == Some(s@),
            None => handled_text(text@, outcome) is None,
        },
{
    match outcome {
        Some(HandlerReturn::Text(s)) => Some(s),
        Some(HandlerReturn::Flag(false)) => None,
        _ => Some(String::from_str(text)),
    }
}

/// What a client command goes on as after the client command handler's
/// answer (`None` where no handler was called).
pub fn client_command_dispatcher(cmd: &str, outcome: Option<HandlerReturn>) -> (r: Option<String>)
    ensures
        match r {
            Some(s) => handled_text(cmd@, outcome) == Some(s@),
            None => handled_text(cmd@, outcome) is None,
        },
{
    resolve_text_handler(cmd, outcome)
}

/// What a server command goes on as after the server command handler's
/// answer (`None` where no handler was called).
pub fn server_command_dispatcher(cmd: &str, outcome: Option<HandlerReturn>) -> (r: Option<String>)
    ensures
        match r {
            Some(s) => handled_text(cmd@, outcome) == Some(s@),
            None => handled_text(cmd@, outcome) is None,
        },
{
    resolve_text_handler(cmd, outcome)
}

/// What a configstring is set to after the configstring handler's answer
/// (`None` where no handler was called).
pub fn set_configstring_dispatcher(value: &str, outcome: Option<HandlerReturn>) -> (r: Option<String>)
    ensures
        match r {
            Some(s) => handled_text(value@, outcome) == Some(s@),
            None => handled_text(value@, outcome) is None,
        },
{
    resolve_text_handler(value, outcome)
}

/// Whether a console print goes on after the console print handler's answer
/// (`None` where no handler was called), and as what.
pub fn console_print_dispatcher(text: &str, outcome: Option<HandlerReturn>) -> (r: Option<String>)
    ensures
        match r {
            Some(s) => handled_text(text@, outcome) == Some(s@),
            None => handled_text(text@, outcome) is None,
        },
{
    resolve_text_handler(text, outcome)
}

/// What a connecting client is told after the connect handler's answer
/// (`None` where no handler was called): the handler's text where it
/// returned one, that the client is banned where it returned false, nothing
/// otherwise (the client may connect).
pub open spec fn connect_rejection(outcome: Option<HandlerReturn>) -> Option<Seq<char>> {
    match outcome {
        Some(HandlerReturn::Text(s)) => Some(s@),
        Some(HandlerReturn::Flag(false)) => Some("You are banned from this server."@),
        _ => None,
    }
}

/// What a connecting client is told after the connect handler's answer.
pub fn client_connect_dispatcher(outcome: Option<HandlerReturn>) -> (r: Option<String>)
    ensures
        match r {
            Some(s) => connect_rejection(outcome) == Some(s@),
            None => connect_rejection(outcome) is None,
        },
{
    match outcome {
        Some(HandlerReturn::Text(s)) => Some(s),
        Some(HandlerReturn::Flag(false)) => Some(String::from_str("You are banned from this server.")),
        _ => None,
    }
}

/// The mask of clients whose free slot may be read while their connection
/// or disconnection is handled, with `client_id` added (the id itself, widened
/// to 64 bits, is or-ed in).
pub open spec fn allow_free_client_added(mask: u64, client_id: i32) -> u64 {
    mask | (client_id as u64)
}

/// The mask with `client_id` taken out again.
pub open spec fn allow_free_client_removed(mask: u64, client_id: i32) -> u64 {
    mask & !(client_id as u64)
}

/// Adds a client to the mask before its connect or disconnect handler runs.
pub fn allow_free_client(mask: u64, client_id: i32) -> (r: u64)
    ensures
        r == allow_free_client_added(mask, client_id),
{
    mask | (client_id as u64)
}

/// Takes a client out of the mask after its handler ran.
pub fn disallow_free_client(mask: u64, client_id: i32) -> (r: u64)
    ensures
        r == allow_free_client_removed(mask, client_id),
{
    mask & !(client_id as u64)
}

/// Adding a client to the mask and taking it out again leaves the mask as it
/// was, but for the client's own bits, which are cleared.
pub proof fn law_allow_free_client_restores(mask: u64, client_id: i32)
    ensures
        allow_free_client_removed(allow_free_client_added(mask, client_id), client_id)
            == allow_free_client_removed(mask, client_id),
{
    let id: u64 = client_id as u64;
    assert((mask | id) & !id == mask & !id) by (bit_vector);
}

/// Whether a client whose slot is free may be read: only while its id is in the mask.
pub open spec fn free_client_readable(mask: u64, client_id: i32) -> bool {
    mask & (client_id as u64) != 0
}

} // verus!
