//! The runtime as the pallet reaches it: every question and every command
//! goes through here and is put on record with its answer.

use vstd::prelude::*;
use crate::config::Config;
use crate::hash::CallHash;
use crate::types::{Event, Permission, Weight};

verus! {

/// One exchange with the runtime: what was asked or commanded, and what came
/// back.
pub enum Exchange<T: Config> {
    /// `origin` was held against `permission`.
    Authorization { origin: T::Origin, permission: Permission, granted: bool },
    /// The store was told that the preimage of `call_hash` is wanted.
    PreimageRequested { call_hash: CallHash },
    /// The store was told that the preimage of `call_hash` is no longer wanted.
    PreimageCleared { call_hash: CallHash },
    /// The store was asked for the preimage of `call_hash`.
    PreimageFetched { call_hash: CallHash, preimage: Option<Seq<u8>> },
    /// The codec was given `bytes`.
    CallDecoded { bytes: Seq<u8>, decoded: Option<T::Call> },
    /// `call` was asked for the weight it declares.
    CallWeighed { call: T::Call, weight: Weight },
    /// `call` was run with root privilege.
    CallDispatched { call: T::Call, outcome: T::Outcome },
    /// `event` was handed to the sink of events.
    EventDeposited { event: Event },
}

/// The bytes that a fetched preimage holds.
pub open spec fn bytes_of(preimage: Option<Vec<u8>>) -> Option<Seq<u8>> {
    match preimage {
        Some(bytes) => Some(bytes@),
        None => None,
    }
}

/// A runtime together with the record of what was exchanged with it.
///
/// While a host holds the runtime, nothing can change it but the methods
/// below, each of which makes one call and puts it on record. So the record
/// tells all that the holder of the host has asked of the runtime, and in
/// which order.
pub struct Host<T: Config> {
    runtime: T,
    record: Ghost<Seq<Exchange<T>>>,
}

impl<T: Config> Host<T> {
    /// The runtime as it stands.
    pub closed spec fn state(&self) -> T {
        self.runtime
    }

    /// The exchanges so far, oldest first.
    pub closed spec fn exchanges(&self) -> Seq<Exchange<T>> {
        self.record@
    }

    /// A host for `runtime`, with nothing on record.
    pub fn new(runtime: T) -> (host: Self)
        ensures
            host.state() == runtime,
            host.exchanges() == Seq::<Exchange<T>>::empty(),
    {
        Host { runtime, record: Ghost(Seq::empty()) }
    }

    /// The runtime, to look at.
    pub fn runtime(&self) -> (runtime: &T)
        ensures
            *runtime == self.state(),
    {
        &self.runtime
    }

    /// Gives the runtime back.
    pub fn into_runtime(self) -> (runtime: T)
        ensures
            runtime == self.state(),
    {
        self.runtime
    }

    /// Asks whether `origin` holds `permission`.
    pub fn ensure_origin(&mut self, origin: &T::Origin, permission: Permission) -> (granted: bool)
        ensures
            final(self).state() == old(self).state(),
            final(self).exchanges() == old(self).exchanges().push(
                Exchange::Authorization { origin: *origin, permission, granted },
            ),
    {
        let granted = self.runtime.ensure_origin(origin, permission);
        proof {
            self.record@ = self.record@.push(
                Exchange::Authorization { origin: *origin, permission, granted },
            );
        }
        granted
    }

    /// Tells the store that the preimage of `call_hash` is wanted.
    pub fn request_preimage(&mut self, call_hash: &CallHash)
        ensures
            final(self).exchanges() == old(self).exchanges().push(
                Exchange::PreimageRequested { call_hash: *call_hash },
            ),
    {
        self.runtime.request_preimage(call_hash);
        proof {
            self.record@ = self.record@.push(Exchange::PreimageRequested { call_hash: *call_hash });
        }
    }

    /// Tells the store that the preimage of `call_hash` is no longer wanted.
    pub fn clear_preimage(&mut self, call_hash: &CallHash)
        ensures
            final(self).exchanges() == old(self).exchanges().push(
                Exchange::PreimageCleared { call_hash: *call_hash },
            ),
    {
        self.runtime.clear_preimage(call_hash);
        proof {
            self.record@ = self.record@.push(Exchange::PreimageCleared { call_hash: *call_hash });
        }
    }

    /// Asks the store for the preimage of `call_hash`.
    pub fn get_preimage(&mut self, call_hash: &CallHash) -> (preimage: Option<Vec<u8>>)
        ensures
            final(self).state() == old(self).state(),
            final(self).exchanges() == old(self).exchanges().push(
                Exchange::PreimageFetched { call_hash: *call_hash, preimage: bytes_of(preimage) },
            ),
    {
        let preimage = self.runtime.get_preimage(call_hash);
        proof {
            self.record@ = self.record@.push(
                Exchange::PreimageFetched { call_hash: *call_hash, preimage: bytes_of(preimage) },
            );
        }
        preimage
    }

    /// Gives `bytes` to the codec.
    pub fn decode_call(&mut self, bytes: &[u8]) -> (decoded: Option<T::Call>)
        ensures
            final(self).state() == old(self).state(),
            final(self).exchanges() == old(self).exchanges().push(
                Exchange::CallDecoded { bytes: bytes@, decoded },
            ),
    {
        let decoded = self.runtime.decode_call(bytes);
        proof {
            self.record@ = self.record@.push(Exchange::CallDecoded { bytes: bytes@, decoded });
        }
        decoded
    }

    /// Asks `call` for the weight it declares.
    pub fn call_weight(&mut self, call: &T::Call) -> (weight: Weight)
        ensures
            final(self).state() == old(self).state(),
            final(self).exchanges() == old(self).exchanges().push(
                Exchange::CallWeighed { call: *call, weight },
            ),
    {
        let weight = self.runtime.call_weight(call);
        proof {
            self.record@ = self.record@.push(Exchange::CallWeighed { call: *call, weight });
        }
        weight
    }

    /// Runs `call` with root privilege.
    pub fn dispatch_as_root(&mut self, call: T::Call) -> (outcome: T::Outcome)
        ensures
            final(self).exchanges() == old(self).exchanges().push(
                Exchange::CallDispatched { call, outcome },
            ),
    {
        let ghost run = call;
        let outcome = self.runtime.dispatch_as_root(call);
        proof {
            self.record@ = self.record@.push(Exchange::CallDispatched { call: run, outcome });
        }
        outcome
    }

    /// Hands `event` to the sink of events.
    pub fn deposit_event(&mut self, event: Event)
        ensures
            final(self).exchanges() == old(self).exchanges().push(
                Exchange::EventDeposited { event },
            ),
    {
        self.runtime.deposit_event(event);
        proof {
            self.record@ = self.record@.push(Exchange::EventDeposited { event });
        }
    }
}

} // verus!
