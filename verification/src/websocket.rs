pub mod handlers;

use vstd::prelude::*;
use crate::text::owned;
use crate::websocket::handlers::{SessionPhase, SessionView};

pub use handlers::WebSocketConnection;

verus! {

/// Answers a request to open a stream: a request that carries a WebSocket
/// key gets a session that opens at `now`, any other is turned away.
pub fn ws_index(websocket_key: Option<&str>, now: u64) -> (r: Result<WebSocketConnection, String>)
    ensures
        websocket_key is Some ==> r is Ok && r->Ok_0@ == (SessionView {
            phase: SessionPhase::Connected,
            last_heartbeat: now,
        }),
        websocket_key is None ==> r is Err && r->Err_0@ == "WebSocket upgrade required"@,
{
    match websocket_key {
        Some(_) => Ok(WebSocketConnection::new(now)),
        None => Err(owned("WebSocket upgrade required")),
    }
}

} // verus!
