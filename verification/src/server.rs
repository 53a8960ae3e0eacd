use vstd::prelude::*;

verus! {

/// The server endpoint a client connects to: the main network, the test
/// network, or a custom websocket URL. Chosen once at client construction.
#[derive(Debug)]
pub enum Server {
    MainNet,
    TestNet,
    Custom(String),
}

/// The websocket URL a given endpoint choice resolves to: a fixed URL for
/// each built-in network, and the given URL verbatim for a custom endpoint.
pub open spec fn spec_server_url(s: Server) -> Seq<char> {
    match s {
        Server::MainNet => "wss://tonapi.io/v2/websocket"@,
        Server::TestNet => "wss://testnet.tonapi.io/v2/websocket"@,
        Server::Custom(url) => url@,
    }
}

impl Server {
    /// Resolve this endpoint choice to the websocket URL to connect to.
    pub fn url(self) -> (r: String)
        ensures
            r@ == spec_server_url(self),
    {
        match self {
            Server::MainNet => String::from_str("wss://tonapi.io/v2/websocket"),
            Server::TestNet => String::from_str("wss://testnet.tonapi.io/v2/websocket"),
            Server::Custom(url) => url,
        }
    }
}

impl Default for Server {
    /// The default endpoint is the main network.
    fn default() -> (r: Server)
        ensures
            r is MainNet,
    {
        Server::MainNet
    }
}

} // verus!
