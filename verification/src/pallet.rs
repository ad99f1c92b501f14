//! The three operations: to whitelist a call, to take it off the whitelist,
//! and to dispatch it.

use vstd::prelude::*;
use crate::config::Config;
use crate::hash::CallHash;
use crate::host::{bytes_of, Exchange, Host};
use crate::model::{
    dispatch_exchanges, dispatch_registry, dispatch_result, remove_exchanges, remove_registry,
    remove_result, whitelist_exchanges, whitelist_registry, whitelist_result, DispatchAnswers,
};
use crate::registry::WhitelistRegistry;
use crate::types::{Error, Event, Permission, Weight};

verus! {

/// Holds the weight that a call declares against the weight that the caller
/// has witnessed: the call may cost what the caller has owned up to, and no
/// more.
pub fn check_weight_witness(declared: Weight, witness: Weight) -> (result: Result<(), Error>)
    ensures
        result == (if declared <= witness {
            Ok::<(), Error>(())
        } else {
            Err::<(), Error>(Error::InvalidCallWeightWitness)
        }),
{
    if declared <= witness {
        Ok(())
    } else {
        Err(Error::InvalidCallWeightWitness)
    }
}

/// The whitelist and the runtime that it serves.
///
/// One authority whitelists the hash of a call; another has the call
/// dispatched with root privilege once the bytes of the call are in the
/// preimage store. Each operation runs to its end before the next begins.
pub struct Pallet<T: Config> {
    whitelisted_call: WhitelistRegistry,
    host: Host<T>,
}

impl<T: Config> Pallet<T> {
    /// The hashes on the whitelist.
    pub closed spec fn whitelisted(&self) -> Set<CallHash> {
        self.whitelisted_call@
    }

    /// The exchanges with the runtime so far, oldest first.
    pub closed spec fn exchanges(&self) -> Seq<Exchange<T>> {
        self.host.exchanges()
    }

    /// The runtime as it stands.
    pub closed spec fn runtime_state(&self) -> T {
        self.host.state()
    }

    /// A pallet on `runtime` with an empty whitelist.
    pub fn new(runtime: T) -> (pallet: Self)
        ensures
            pallet.whitelisted() == Set::<CallHash>::empty(),
            pallet.exchanges() == Seq::<Exchange<T>>::empty(),
            pallet.runtime_state() == runtime,
    {
        Pallet { whitelisted_call: WhitelistRegistry::new(), host: Host::new(runtime) }
    }

    /// A pallet on `runtime` that takes up the whitelist `whitelisted_call`,
    /// as after a restart.
    pub fn with_registry(whitelisted_call: WhitelistRegistry, runtime: T) -> (pallet: Self)
        ensures
            pallet.whitelisted() == whitelisted_call@,
            pallet.exchanges() == Seq::<Exchange<T>>::empty(),
            pallet.runtime_state() == runtime,
    {
        Pallet { whitelisted_call, host: Host::new(runtime) }
    }

    /// Whether `call_hash` is whitelisted.
    pub fn contains(&self, call_hash: &CallHash) -> (found: bool)
        ensures
            found == self.whitelisted().contains(*call_hash),
    {
        self.whitelisted_call.contains(call_hash)
    }

    /// The whitelist, to look at or to store.
    pub fn registry(&self) -> (registry: &WhitelistRegistry)
        ensures
            registry@ == self.whitelisted(),
    {
        &self.whitelisted_call
    }

    /// The runtime, to look at.
    pub fn runtime(&self) -> (runtime: &T)
        ensures
            *runtime == self.runtime_state(),
    {
        self.host.runtime()
    }

    /// Takes the pallet apart into its whitelist and the runtime.
    pub fn into_parts(self) -> (parts: (WhitelistRegistry, T))
        ensures
            parts.0@ == self.whitelisted(),
            parts.1 == self.runtime_state(),
    {
        (self.whitelisted_call, self.host.into_runtime())
    }

    /// Puts `call_hash` on the whitelist, for a caller who holds
    /// `Permission::Whitelist`.
    ///
    /// In this order: the hash goes on the whitelist, the preimage store is
    /// told that its bytes are wanted, and `Event::CallWhitelisted` is
    /// deposited. A hash that is whitelisted already stays so, and request
    /// and event are made again. Without the permission nothing is done.
    pub fn whitelist_call(&mut self, origin: &T::Origin, call_hash: CallHash) -> (result: Result<
        (),
        Error,
    >)
        ensures
            exists|granted: bool|
                {
                    &&& result == whitelist_result(granted)
                    &&& final(self).whitelisted() == whitelist_registry(
                        old(self).whitelisted(),
                        call_hash,
                        granted,
                    )
                    &&& final(self).exchanges() == old(self).exchanges() + #[trigger]
                    whitelist_exchanges::<T>(*origin, call_hash, granted)
                },
            result is Err ==> final(self).runtime_state() == old(self).runtime_state(),
    {
        let granted = self.host.ensure_origin(origin, Permission::Whitelist);
        if !granted {
            assert(self.exchanges() =~= old(self).exchanges() + whitelist_exchanges::<T>(
                *origin,
                call_hash,
                false,
            ));
            return Err(Error::NotAuthorized);
        }
        self.whitelisted_call.whitelist(call_hash);
        self.host.request_preimage(&call_hash);
        self.host.deposit_event(Event::CallWhitelisted { call_hash });
        assert(self.exchanges() =~= old(self).exchanges() + whitelist_exchanges::<T>(
            *origin,
            call_hash,
            true,
        ));
        Ok(())
    }

    /// Takes `call_hash` off the whitelist, for a caller who holds
    /// `Permission::Whitelist`.
    ///
    /// In this order: the hash comes off the whitelist, the preimage store is
    /// told that its bytes are no longer wanted, and
    /// `Event::WhitelistedCallRemoved` is deposited. For a hash that is not
    /// whitelisted the result is `Error::CallIsNotWhitelisted`, and nothing is
    /// done.
    pub fn remove_whitelisted_call(&mut self, origin: &T::Origin, call_hash: CallHash) -> (result:
        Result<(), Error>)
        ensures
            exists|granted: bool|
                {
                    &&& result == remove_result(
                        old(self).whitelisted().contains(call_hash),
                        granted,
                    )
                    &&& final(self).whitelisted() == remove_registry(
                        old(self).whitelisted(),
                        call_hash,
                        granted,
                    )
                    &&& final(self).exchanges() == old(self).exchanges() + #[trigger]
                    remove_exchanges::<T>(
                        *origin,
                        call_hash,
                        old(self).whitelisted().contains(call_hash),
                        granted,
                    )
                },
            result is Err ==> final(self).runtime_state() == old(self).runtime_state(),
    {
        let ghost whitelisted = self.whitelisted().contains(call_hash);
        let granted = self.host.ensure_origin(origin, Permission::Whitelist);
        if !granted {
            assert(self.exchanges() =~= old(self).exchanges() + remove_exchanges::<T>(
                *origin,
                call_hash,
                whitelisted,
                false,
            ));
            return Err(Error::NotAuthorized);
        }
        match self.whitelisted_call.remove(&call_hash) {
            Ok(()) => {},
            Err(e) => {
                assert(self.exchanges() =~= old(self).exchanges() + remove_exchanges::<T>(
                    *origin,
                    call_hash,
                    whitelisted,
                    true,
                ));
                return Err(e);
            },
        }
        self.host.clear_preimage(&call_hash);
        self.host.deposit_event(Event::WhitelistedCallRemoved { call_hash });
        assert(self.exchanges() =~= old(self).exchanges() + remove_exchanges::<T>(
            *origin,
            call_hash,
            whitelisted,
            true,
        ));
        Ok(())
    }

    /// Dispatches the call whose hash is `call_hash` with root privilege, for
    /// a caller who holds `Permission::DispatchWhitelisted` and owns up to the
    /// weight `call_weight_witness`.
    ///
    /// In this order, each step only if those before it have passed: the hash
    /// comes off the whitelist (`Error::CallIsNotWhitelisted` if it is not on
    /// it); the bytes of the call are fetched from the preimage store
    /// (`Error::UnavailablePreImage`); they are decoded
    /// (`Error::UndecodableCall`); the weight that the call declares is held
    /// against the witness (`Error::InvalidCallWeightWitness` if it is
    /// higher); the call is run with root privilege; and
    /// `Event::WhitelistedCallDispatched` is deposited. What the engine
    /// reports of the call is handed back as it is.
    ///
    /// The hash comes off the whitelist before anything else is tried, and
    /// stays off whichever later step fails. So a call is dispatched at most
    /// once for each time it is whitelisted, and a dispatch that failed can be
    /// tried again only after the hash has been whitelisted anew. The request
    /// for the preimage is left standing: only `remove_whitelisted_call`
    /// clears it.
    pub fn dispatch_whitelisted_call(
        &mut self,
        origin: &T::Origin,
        call_hash: CallHash,
        call_weight_witness: Weight,
    ) -> (result: Result<T::Outcome, Error>)
        ensures
            exists|answers: DispatchAnswers<T>|
                {
                    &&& result == dispatch_result(
                        old(self).whitelisted().contains(call_hash),
                        call_weight_witness,
                        answers,
                    )
                    &&& final(self).whitelisted() == dispatch_registry(
                        old(self).whitelisted(),
                        call_hash,
                        answers.granted,
                    )
                    &&& final(self).exchanges() == old(self).exchanges() + #[trigger]
                    dispatch_exchanges(
                        *origin,
                        call_hash,
                        old(self).whitelisted().contains(call_hash),
                        call_weight_witness,
                        answers,
                    )
                },
            result is Err ==> final(self).runtime_state() == old(self).runtime_state(),
    {
        let ghost whitelisted = self.whitelisted().contains(call_hash);
        let ghost mut answers: DispatchAnswers<T> = arbitrary();

        let granted = self.host.ensure_origin(origin, Permission::DispatchWhitelisted);
        proof {
            answers = DispatchAnswers { granted, ..answers };
        }
        if !granted {
            assert(self.exchanges() =~= old(self).exchanges() + dispatch_exchanges(
                *origin,
                call_hash,
                whitelisted,
                call_weight_witness,
                answers,
            ));
            return Err(Error::NotAuthorized);
        }
        match self.whitelisted_call.remove(&call_hash) {
            Ok(()) => {},
            Err(e) => {
                assert(self.exchanges() =~= old(self).exchanges() + dispatch_exchanges(
                    *origin,
                    call_hash,
                    whitelisted,
                    call_weight_witness,
                    answers,
                ));
                return Err(e);
            },
        }

        let preimage = self.host.get_preimage(&call_hash);
        proof {
            answers = DispatchAnswers { preimage: bytes_of(preimage), ..answers };
        }
        let bytes = match preimage {
            Some(bytes) => bytes,
            None => {
                assert(self.exchanges() =~= old(self).exchanges() + dispatch_exchanges(
                    *origin,
                    call_hash,
                    whitelisted,
                    call_weight_witness,
                    answers,
                ));
                return Err(Error::UnavailablePreImage);
            },
        };

        let decoded = self.host.decode_call(bytes.as_slice());
        proof {
            answers = DispatchAnswers { decoded, ..answers };
        }
        let call = match decoded {
            Some(call) => call,
            None => {
                assert(self.exchanges() =~= old(self).exchanges() + dispatch_exchanges(
                    *origin,
                    call_hash,
                    whitelisted,
                    call_weight_witness,
                    answers,
                ));
                return Err(Error::UndecodableCall);
            },
        };

        let weight = self.host.call_weight(&call);
        proof {
            answers = DispatchAnswers { weight, ..answers };
        }
        match check_weight_witness(weight, call_weight_witness) {
            Ok(()) => {},
            Err(e) => {
                assert(self.exchanges() =~= old(self).exchanges() + dispatch_exchanges(
                    *origin,
                    call_hash,
                    whitelisted,
                    call_weight_witness,
                    answers,
                ));
                return Err(e);
            },
        }

        let outcome = self.host.dispatch_as_root(call);
        proof {
            answers = DispatchAnswers { outcome, ..answers };
        }
        self.host.deposit_event(Event::WhitelistedCallDispatched { call_hash });
        assert(self.exchanges() =~= old(self).exchanges() + dispatch_exchanges(
            *origin,
            call_hash,
            whitelisted,
            call_weight_witness,
            answers,
        ));
        Ok(outcome)
    }
}

} // verus!
