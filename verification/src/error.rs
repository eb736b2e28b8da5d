//! The error kinds a caller can receive from this library.

use vstd::prelude::*;

verus! {

/// How a transport round trip failed: a timeout is distinguished from other
/// network-level failures.
#[derive(Clone, Copy, Debug, PartialEq, Eq, Structural)]
pub enum TransportKind {
    /// The transport reported that the request timed out.
    Timeout,
    /// Any other network- or connection-level failure.
    Network,
}

/// An error object returned by the daemon inside a JSON-RPC response.
#[derive(Clone, Debug, PartialEq, Eq)]
pub struct RpcFailure {
    pub code: i64,
    pub message: String,
}

/// The typed failures this library returns.  Each kind is distinguishable,
/// so a caller can tell bad local configuration, an unreachable daemon and
/// unexpected daemon data apart without reading message text.
#[derive(Clone, Debug, PartialEq, Eq)]
pub enum Error {
    /// The running operating system is not one this library knows how to
    /// locate a daemon installation on.
    UnsupportedPlatform,
    /// An expected directory or file does not exist where it was looked for.
    PathNotFound,
    /// The configuration file is missing a required setting.
    InvalidConfigFile,
    /// The `rpcport` setting is present but is not an unsigned 16-bit number.
    PortParse,
    /// An argument could not be serialized to a wire value.
    Serialization,
    /// The transport could not complete the round trip.
    Transport(TransportKind),
    /// The daemon answered with an error object instead of a result.
    Rpc(RpcFailure),
    /// The daemon's reply could not be read back into the expected shape.
    Deserialization,
    /// The invoked call is a placeholder this library does not support yet.
    NotImplemented,
    /// A client-side rejection of a call's arguments, raised before any
    /// request is built or sent.
    VRSCError(String),
}

} // verus!
