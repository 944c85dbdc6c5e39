//! Where an HTTP request goes: to the WebSocket endpoint, to a file, or to a hint.

use vstd::prelude::*;
use vstd::string::StrSliceExecFns;

verus! {

/// What to do with a request.
#[derive(Debug, PartialEq, Eq)]
pub enum Route {
    /// Upgrade the connection to a WebSocket and run a session on it.
    WebSocket,
    /// The WebSocket endpoint was asked for without an upgrade: answer with a hint.
    UpgradeExpected,
    /// Serve the file at this path, taken relative to the working directory.
    StaticFile(String),
    /// An upgrade was asked for at another path: answer with a hint.
    WrongEndpoint,
}

/// The path of the WebSocket endpoint.
pub open spec fn websocket_path() -> Seq<char> {
    "/websocket"@
}

/// The file that a request path names: the path without its first character.
pub open spec fn static_file_of(path: Seq<char>) -> Seq<char> {
    if path.len() == 0 {
        path
    } else {
        path.subrange(1, path.len() as int)
    }
}

/// Routes a request by its path and by whether it carries an upgrade header.
pub fn route_request(path: &str, upgrade: bool) -> (route: Route)
    ensures
        match route {
            Route::WebSocket => path@ == websocket_path() && upgrade,
            Route::UpgradeExpected => path@ == websocket_path() && !upgrade,
            Route::StaticFile(file) => path@ != websocket_path() && !upgrade && file@
                == static_file_of(path@),
            Route::WrongEndpoint => path@ != websocket_path() && upgrade,
        },
{
    let at_endpoint = path.to_owned() == "/websocket".to_owned();
    if at_endpoint && upgrade {
        Route::WebSocket
    } else if at_endpoint {
        Route::UpgradeExpected
    } else if upgrade {
        Route::WrongEndpoint
    } else {
        let length = path.unicode_len();
        if length == 0 {
            Route::StaticFile(path.to_owned())
        } else {
            Route::StaticFile(path.substring_char(1, length).to_owned())
        }
    }
}

} // verus!
