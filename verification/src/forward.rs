//! The ADB forwarder's rules: where a connection is forwarded to, and what
//! a pump does with what it has read. The forwarder knows nothing of what
//! the bytes mean; it passes them on as they come.

use crate::text::{below, path_below};
use vstd::prelude::*;
use vstd::slice::slice_subrange;

verus! {

/// Bytes that a pump reads at a time.
pub const PUMP_BUFFER_SIZE: usize = 8192;

/// Where the guest's ADB daemon may be reached.
#[derive(Debug, Clone, Copy, PartialEq, Eq, Structural)]
pub enum AdbTarget {
    /// The daemon's socket in the guest's root.
    GuestSocket,
    /// The daemon's port on this machine.
    Loopback,
}

/// Where the guest's ADB daemon listens in the guest's root.
pub fn adbd_socket_path(rootfs: &str) -> (p: String)
    ensures
        p@ == below(rootfs@, "dev/socket/adbd"@),
{
    path_below(rootfs, "dev/socket/adbd")
}

/// The address that is tried where the socket cannot be reached.
pub fn loopback_address() -> (a: &'static str)
    ensures
        a@ == "127.0.0.1:5037"@,
{
    "127.0.0.1:5037"
}

/// What to try after `failed` could not be reached, `None` where nothing is
/// left and the client is closed. The socket is tried first; the port is
/// tried after it where `fallback` allows.
pub open spec fn next_target(failed: Option<AdbTarget>, fallback: bool) -> Option<AdbTarget> {
    match failed {
        None => Some(AdbTarget::GuestSocket),
        Some(AdbTarget::GuestSocket) => if fallback {
            Some(AdbTarget::Loopback)
        } else {
            None
        },
        Some(AdbTarget::Loopback) => None,
    }
}

/// Where to forward a new connection to. `failed` is the target that was
/// tried last and could not be reached, `None` before the first try.
pub fn forward_adb_connection(failed: Option<AdbTarget>, fallback: bool) -> (r: Option<AdbTarget>)
    ensures
        r == next_target(failed, fallback),
{
    match failed {
        None => Some(AdbTarget::GuestSocket),
        Some(AdbTarget::GuestSocket) => if fallback {
            Some(AdbTarget::Loopback)
        } else {
            None
        },
        Some(AdbTarget::Loopback) => None,
    }
}

/// What a pump passes on after a read: the bytes that were read, as they
/// are. `read` is the number of bytes read into `buf`, `None` where reading
/// failed. A pump that has read nothing, or could not read, stops.
pub open spec fn pumped(buf: Seq<u8>, read: Option<usize>) -> Option<Seq<u8>> {
    match read {
        Some(n) => if 0 < n <= buf.len() {
            Some(buf.subrange(0, n as int))
        } else {
            None
        },
        None => None,
    }
}

/// What a pump writes to the other side after a read, `None` where it
/// stops.
pub fn pump_step(buf: &[u8], read: Option<usize>) -> (r: Option<&[u8]>)
    ensures
        match r {
            Some(bytes) => pumped(buf@, read) == Some(bytes@),
            None => pumped(buf@, read) is None,
        },
{
    match read {
        Some(n) => if 0 < n && n <= buf.len() {
            Some(slice_subrange(buf, 0, n))
        } else {
            None
        },
        None => None,
    }
}

/// The two pumps of one forwarded connection.
#[derive(Debug, Clone, Copy, PartialEq, Eq, Structural)]
pub struct ForwardSession {
    pub upstream_done: bool,
    pub downstream_done: bool,
}

/// One of the two directions of a forwarded connection.
#[derive(Debug, Clone, Copy, PartialEq, Eq, Structural)]
pub enum Direction {
    /// From the client to the guest.
    Upstream,
    /// From the guest to the client.
    Downstream,
}

impl ForwardSession {
    /// A connection whose pumps both run.
    pub fn new() -> (s: ForwardSession)
        ensures
            s == (ForwardSession { upstream_done: false, downstream_done: false }),
    {
        ForwardSession { upstream_done: false, downstream_done: false }
    }

    /// The pump of `direction` has stopped.
    pub fn pump_stopped(&mut self, direction: Direction)
        ensures
            *final(self) == match direction {
                Direction::Upstream => ForwardSession { upstream_done: true, ..*old(self) },
                Direction::Downstream => ForwardSession { downstream_done: true, ..*old(self) },
            },
    {
        match direction {
            Direction::Upstream => {
                self.upstream_done = true;
            },
            Direction::Downstream => {
                self.downstream_done = true;
            },
        }
    }

    /// Whether the connection is over: only once both pumps have stopped.
    pub fn is_closed(&self) -> (r: bool)
        ensures
            r == (self.upstream_done && self.downstream_done),
    {
        self.upstream_done && self.downstream_done
    }
}

/// What a run of reads sends to the other side: the bytes of each read, in
/// order, up to the first read that stops the pump.
pub open spec fn relayed(buffers: Seq<(Seq<u8>, Option<usize>)>) -> Seq<u8>
    decreases buffers.len(),
{
    if buffers.len() == 0 {
        Seq::empty()
    } else {
        match pumped(buffers[0].0, buffers[0].1) {
            Some(bytes) => bytes + relayed(buffers.subrange(1, buffers.len() as int)),
            None => Seq::empty(),
        }
    }
}

/// A pump neither adds nor changes bytes: a message that is read whole, in
/// one piece, arrives as it was sent.
pub proof fn lemma_pump_is_blind(message: Seq<u8>)
    requires
        0 < message.len() <= usize::MAX,
    ensures
        pumped(message, Some(message.len() as usize)) == Some(message),
        relayed(seq![(message, Some(message.len() as usize)), (message, Some(0usize))]) == message,
{
    let script = seq![(message, Some(message.len() as usize)), (message, Some(0usize))];
    let rest = script.subrange(1, script.len() as int);
    assert(relayed(rest) =~= Seq::<u8>::empty());
}

} // verus!
