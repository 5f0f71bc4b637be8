//! The server side of a client slot: a model of the engine's `client_t`.
use vstd::prelude::*;

use crate::quake_types::clientState_t;

verus! {

/// A client slot of the server.
#[derive(Debug, PartialEq, Eq)]
pub struct Client {
    pub client_id: i32,
    pub state: clientState_t,
    /// Whether the slot has a game entity; it has none after a map change.
    pub has_gentity: bool,
    pub userinfo: String,
    pub steam_id: i64,
}

impl Client {
    /// The slot's client id.
    pub fn get_client_id(&self) -> (r: i32)
        ensures
            r == self.client_id,
    {
        self.client_id
    }

    /// The connection state.
    pub fn get_state(&self) -> (r: clientState_t)
        ensures
            r == self.state,
    {
        self.state
    }

    /// Whether the slot has a game entity.
    pub fn has_gentity(&self) -> (r: bool)
        ensures
            r == self.has_gentity,
    {
        self.has_gentity
    }

    /// The userinfo string.
    pub fn get_user_info(&self) -> (r: String)
        ensures
            r == self.userinfo,
    {
        self.userinfo.clone()
    }

    /// The Steam id.
    pub fn get_steam_id(&self) -> (r: i64)
        ensures
            r == self.steam_id,
    {
        self.steam_id
    }
}

} // verus!
