//! Per-session decisions of the SOCKS5 handler: which data path a decoded
//! command selects, what a failed tunnel open answers, and when a relay
//! loop keeps going.

use vstd::prelude::*;

verus! {

/// SOCKS5 command of an accepted session, as decoded by the codec.
#[derive(PartialEq, Eq, Structural, Clone, Copy, Debug)]
pub enum SocksCommand {
    /// Outbound TCP connection (CONNECT).
    Connect,
    /// Outbound UDP relay session (UDP ASSOCIATE).
    UdpAssociate,
    /// Any other SOCKS5 command.
    Other,
}

/// What the session does after the command read.
#[derive(PartialEq, Eq, Structural, Clone, Copy, Debug)]
pub enum SessionAction {
    /// Open a tunnel stream to the target and enter the TCP relay.
    OpenTunnelStream,
    /// Spawn the UDP interception data path; the command reply completes at
    /// once and the data path outlives the control connection.
    SpawnUdpInterception,
    /// Reply "command not supported" and terminate the session.
    ReplyCommandUnsupported,
}

/// Dispatch a decoded command to its data path. CONNECT and UDP ASSOCIATE
/// are the only supported commands; anything else is answered with an error.
pub fn dispatch_command(cmd: SocksCommand) -> (a: SessionAction)
    ensures
        cmd == SocksCommand::Connect ==> a == SessionAction::OpenTunnelStream,
        cmd == SocksCommand::UdpAssociate ==> a == SessionAction::SpawnUdpInterception,
        cmd == SocksCommand::Other ==> a == SessionAction::ReplyCommandUnsupported,
{
    match cmd {
        SocksCommand::Connect => SessionAction::OpenTunnelStream,
        SocksCommand::UdpAssociate => SessionAction::SpawnUdpInterception,
        SocksCommand::Other => SessionAction::ReplyCommandUnsupported,
    }
}

/// Reply to the CONNECT client after the tunnel stream open attempt.
#[derive(PartialEq, Eq, Structural, Clone, Copy, Debug)]
pub enum ConnectAction {
    /// The stream opened: reply success and enter the relay loop.
    ReplySuccessAndRelay,
    /// The upstream was unreachable: reply "network unreachable" and
    /// terminate the session. The failure is single-attempt, never retried.
    ReplyNetworkUnreachable,
}

/// Decide the CONNECT reply from whether the tunnel stream opened.
pub fn connect_decision(stream_opened: bool) -> (a: ConnectAction)
    ensures
        stream_opened ==> a == ConnectAction::ReplySuccessAndRelay,
        !stream_opened ==> a == ConnectAction::ReplyNetworkUnreachable,
{
    if stream_opened {
        ConnectAction::ReplySuccessAndRelay
    } else {
        ConnectAction::ReplyNetworkUnreachable
    }
}

/// Outcome of one read on either side of the TCP relay.
#[derive(PartialEq, Eq, Structural, Clone, Copy, Debug)]
pub enum ReadOutcome {
    /// A read returned this many bytes; zero means end-of-stream.
    Read(usize),
    /// The read failed with an I/O error.
    Failed,
}

/// Whether the relay loop continues after a read: only a successful,
/// nonempty read does. End-of-stream (a zero-length read) on either side or
/// any I/O error terminates the relay; errors are not retried.
pub fn relay_continues(outcome: ReadOutcome) -> (r: bool)
    ensures
        r <==> (outcome matches ReadOutcome::Read(n) && n > 0),
{
    match outcome {
        ReadOutcome::Read(n) => n > 0,
        ReadOutcome::Failed => false,
    }
}

} // verus!
