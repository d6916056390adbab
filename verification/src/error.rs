use vstd::prelude::*;

verus! {

/// The round trips that the client makes to the node.
#[derive(Clone, Copy, Debug, PartialEq, Eq, Structural)]
pub enum Operation {
    Getinfo,
    Getroute,
    Keysend,
}

/// Everything that can go wrong between the caller and the node.
#[derive(Debug, PartialEq, Eq)]
pub enum ClientError {
    /// The PEM material was missing or could not be used. Fatal.
    Credential,
    /// One dial or handshake failed.
    Connection,
    /// Every permitted connection attempt failed. Fatal.
    ExhaustedRetries,
    /// A node identity was not an even-length string of hex digits.
    InvalidIdentity,
    /// A round trip failed in the transport or was refused by the node.
    Rpc { operation: Operation, cause: String },
}

} // verus!
