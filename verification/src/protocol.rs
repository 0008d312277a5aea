//! Messages from the daemon to a client of the control port.

use vstd::prelude::*;

verus! {

/// What the daemon tells a client.
pub enum ServerMessage {
    /// The container was started.
    ContainerStarted,
    /// The daemon's state.
    Status { container_running: bool, rootfs_path: String, width: i32, height: i32 },
    /// The request was served.
    Okay,
    /// The answer to a ping.
    Pong,
    /// The request failed.
    Error { message: String },
}

} // verus!
