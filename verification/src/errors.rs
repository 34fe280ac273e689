//! The error taxonomy of the gateway client.

use vstd::prelude::*;

verus! {

/// What can go wrong while talking to the platform.
///
/// `Auth`: the credential exchange (or building an authorization header)
/// failed. `Protocol`: a well-formed response lacked an expected field.
/// `Connection`: a transport-level failure opening or reading the stream.
/// `Parse`: a malformed frame payload, which is fatal mid-stream.
#[derive(Clone, Copy, Debug, PartialEq, Eq, Structural)]
pub enum ChannelError {
    Auth,
    Protocol,
    Connection,
    Parse,
}

} // verus!
