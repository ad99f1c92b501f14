//! Errors, events and the small values that the operations exchange.

use vstd::prelude::*;
use crate::hash::CallHash;

verus! {

/// The declared cost of running a call.
pub type Weight = u64;

/// Why an operation was refused. Every failure ends the operation; none is
/// retried.
#[derive(Clone, Copy, Debug, PartialEq, Eq, Structural)]
pub enum Error {
    /// The preimage store holds no bytes for the hash.
    UnavailablePreImage,
    /// The bytes held for the hash are not the encoding of a call.
    UndecodableCall,
    /// The call declares a higher weight than the caller has witnessed.
    InvalidCallWeightWitness,
    /// The hash is not on the whitelist.
    CallIsNotWhitelisted,
    /// The caller does not hold the permission that the operation asks for.
    NotAuthorized,
}

/// What an operation announces once it is done.
#[derive(Clone, Copy, Debug, PartialEq, Eq)]
pub enum Event {
    /// A call hash was put on the whitelist.
    CallWhitelisted { call_hash: CallHash },
    /// A call hash was taken off the whitelist without being dispatched.
    WhitelistedCallRemoved { call_hash: CallHash },
    /// A whitelisted call was dispatched with root privilege.
    WhitelistedCallDispatched { call_hash: CallHash },
}

/// The two permissions that the operations ask for. They are kept apart even
/// where one authority holds both: the one who nominates a call is not, by
/// that alone, the one who may trigger it.
#[derive(Clone, Copy, Debug, PartialEq, Eq, Structural)]
pub enum Permission {
    /// To put a call hash on the whitelist, and to take it off.
    Whitelist,
    /// To dispatch a whitelisted call.
    DispatchWhitelisted,
}

} // verus!
