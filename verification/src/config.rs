//! What the pallet needs from the runtime that hosts it.

use vstd::prelude::*;
use crate::hash::CallHash;
use crate::types::{Event, Permission, Weight};

verus! {

/// The runtime that hosts the pallet: who may do what, the store of
/// preimages, the codec of calls, the engine that runs them and the sink of
/// events.
///
/// No method promises anything. What the pallet does is proved for every
/// runtime, whatever it answers.
pub trait Config {
    /// The context of a caller.
    type Origin;

    /// A call that the runtime can run.
    type Call;

    /// What the runtime reports once it has run a call.
    type Outcome;

    /// Whether `origin` holds `permission`.
    fn ensure_origin(&self, origin: &Self::Origin, permission: Permission) -> bool;

    /// Notes that the bytes hashing to `call_hash` are wanted.
    fn request_preimage(&mut self, call_hash: &CallHash);

    /// Notes that the bytes hashing to `call_hash` are no longer wanted.
    fn clear_preimage(&mut self, call_hash: &CallHash);

    /// The bytes hashing to `call_hash`, if the store holds them.
    fn get_preimage(&self, call_hash: &CallHash) -> Option<Vec<u8>>;

    /// Whether the bytes hashing to `call_hash` are wanted.
    fn preimage_requested(&self, call_hash: &CallHash) -> bool;

    /// The call that `bytes` encode, if they encode one.
    fn decode_call(&self, bytes: &[u8]) -> Option<Self::Call>;

    /// The weight that `call` declares for itself.
    fn call_weight(&self, call: &Self::Call) -> Weight;

    /// Runs `call` with root privilege, whatever origin the call would ask
    /// for by itself.
    fn dispatch_as_root(&mut self, call: Self::Call) -> Self::Outcome;

    /// Hands `event` to the sink of events.
    fn deposit_event(&mut self, event: Event);
}

} // verus!
