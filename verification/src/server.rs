//! The two ends of a connection between a player's machine and the server.

use vstd::prelude::*;

verus! {

/// What the server keeps for one connection: the client through which it
/// reaches the player's machine.
#[derive(Debug, Clone)]
pub struct BackendServer<C> {
    player_client: C,
}

impl<C> BackendServer<C> {
    /// The client through which the player's machine is reached.
    pub closed spec fn client(self) -> C {
        self.player_client
    }

    pub fn new(player_client: C) -> (server: BackendServer<C>)
        ensures
            server.client() == player_client,
    {
        BackendServer { player_client }
    }

    /// The client through which the player's machine is reached.
    pub fn player_client(&self) -> (client: &C)
        ensures
            *client == self.client(),
    {
        &self.player_client
    }
}

/// What a player's machine serves to the server. It keeps nothing.
#[derive(Debug, Clone, Copy, PartialEq, Eq, Structural)]
pub struct FrontendServer {}

impl FrontendServer {
    pub fn new() -> (server: FrontendServer)
        ensures
            server == (FrontendServer {  }),
    {
        FrontendServer {  }
    }
}

} // verus!
