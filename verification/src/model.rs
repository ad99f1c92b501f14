//! What each operation does, as a function of what the runtime answers.
//!
//! An operation asks the runtime one thing after another and stops at the
//! first refusal. For each operation three functions say, for given answers,
//! what it returns, what the whitelist holds afterwards, and which exchanges
//! with the runtime it makes, in order.

use vstd::prelude::*;
use crate::config::Config;
use crate::hash::CallHash;
use crate::host::Exchange;
use crate::types::{Error, Event, Permission, Weight};

verus! {

/// What `whitelist_call` returns when the runtime answers the question of
/// permission with `granted`.
pub open spec fn whitelist_result(granted: bool) -> Result<(), Error> {
    if granted {
        Ok(())
    } else {
        Err(Error::NotAuthorized)
    }
}

/// The whitelist after `whitelist_call`.
pub open spec fn whitelist_registry(
    before: Set<CallHash>,
    call_hash: CallHash,
    granted: bool,
) -> Set<CallHash> {
    if granted {
        before.insert(call_hash)
    } else {
        before
    }
}

/// The exchanges of `whitelist_call`: the question of permission, then, if it
/// is granted, the request for the preimage and the event.
pub open spec fn whitelist_exchanges<T: Config>(
    origin: T::Origin,
    call_hash: CallHash,
    granted: bool,
) -> Seq<Exchange<T>> {
    let asked = seq![
        Exchange::<T>::Authorization { origin, permission: Permission::Whitelist, granted },
    ];
    if granted {
        asked.push(Exchange::PreimageRequested { call_hash }).push(
            Exchange::EventDeposited { event: Event::CallWhitelisted { call_hash } },
        )
    } else {
        asked
    }
}

/// What `remove_whitelisted_call` returns for a hash that was or was not
/// `whitelisted`, when the runtime answers the question of permission with
/// `granted`.
pub open spec fn remove_result(whitelisted: bool, granted: bool) -> Result<(), Error> {
    if !granted {
        Err(Error::NotAuthorized)
    } else if !whitelisted {
        Err(Error::CallIsNotWhitelisted)
    } else {
        Ok(())
    }
}

/// The whitelist after `remove_whitelisted_call`.
pub open spec fn remove_registry(
    before: Set<CallHash>,
    call_hash: CallHash,
    granted: bool,
) -> Set<CallHash> {
    if granted {
        before.remove(call_hash)
    } else {
        before
    }
}

/// The exchanges of `remove_whitelisted_call`: the question of permission,
/// then, if it is granted and the hash was whitelisted, the clearing of the
/// request for the preimage and the event.
pub open spec fn remove_exchanges<T: Config>(
    origin: T::Origin,
    call_hash: CallHash,
    whitelisted: bool,
    granted: bool,
) -> Seq<Exchange<T>> {
    let asked = seq![
        Exchange::<T>::Authorization { origin, permission: Permission::Whitelist, granted },
    ];
    if granted && whitelisted {
        asked.push(Exchange::PreimageCleared { call_hash }).push(
            Exchange::EventDeposited { event: Event::WhitelistedCallRemoved { call_hash } },
        )
    } else {
        asked
    }
}

/// What the runtime answers in the course of one dispatch. An answer that the
/// dispatch does not come to ask for plays no part.
pub struct DispatchAnswers<T: Config> {
    /// Whether the caller may dispatch whitelisted calls.
    pub granted: bool,
    /// The bytes that the store holds for the hash.
    pub preimage: Option<Seq<u8>>,
    /// The call that the codec makes of those bytes.
    pub decoded: Option<T::Call>,
    /// The weight that the call declares.
    pub weight: Weight,
    /// What the engine reports of the call.
    pub outcome: T::Outcome,
}

/// What `dispatch_whitelisted_call` returns for a hash that was or was not
/// `whitelisted` and the weight `witness`, when the runtime gives `answers`.
/// Each test is made only if those before it have passed.
pub open spec fn dispatch_result<T: Config>(
    whitelisted: bool,
    witness: Weight,
    answers: DispatchAnswers<T>,
) -> Result<T::Outcome, Error> {
    if !answers.granted {
        Err(Error::NotAuthorized)
    } else if !whitelisted {
        Err(Error::CallIsNotWhitelisted)
    } else if answers.preimage is None {
        Err(Error::UnavailablePreImage)
    } else if answers.decoded is None {
        Err(Error::UndecodableCall)
    } else if answers.weight > witness {
        Err(Error::InvalidCallWeightWitness)
    } else {
        Ok(answers.outcome)
    }
}

/// The whitelist after `dispatch_whitelisted_call`: once the caller is let
/// through, the hash is off it, whatever comes of the dispatch.
pub open spec fn dispatch_registry(
    before: Set<CallHash>,
    call_hash: CallHash,
    granted: bool,
) -> Set<CallHash> {
    if granted {
        before.remove(call_hash)
    } else {
        before
    }
}

/// The exchanges of `dispatch_whitelisted_call`: the question of permission,
/// the fetching of the preimage, its decoding, the weighing of the call, its
/// run with root privilege, and the event; up to the first step that fails.
pub open spec fn dispatch_exchanges<T: Config>(
    origin: T::Origin,
    call_hash: CallHash,
    whitelisted: bool,
    witness: Weight,
    answers: DispatchAnswers<T>,
) -> Seq<Exchange<T>> {
    let asked = seq![
        Exchange::<T>::Authorization {
            origin,
            permission: Permission::DispatchWhitelisted,
            granted: answers.granted,
        },
    ];
    if !answers.granted || !whitelisted {
        asked
    } else {
        let fetched = asked.push(
            Exchange::PreimageFetched { call_hash, preimage: answers.preimage },
        );
        match answers.preimage {
            None => fetched,
            Some(bytes) => {
                let decoded = fetched.push(
                    Exchange::CallDecoded { bytes, decoded: answers.decoded },
                );
                match answers.decoded {
                    None => decoded,
                    Some(call) => {
                        let weighed = decoded.push(
                            Exchange::CallWeighed { call, weight: answers.weight },
                        );
                        if answers.weight > witness {
                            weighed
                        } else {
                            weighed.push(
                                Exchange::CallDispatched { call, outcome: answers.outcome },
                            ).push(
                                Exchange::EventDeposited {
                                    event: Event::WhitelistedCallDispatched { call_hash },
                                },
                            )
                        }
                    },
                }
            },
        }
    }
}

/// Whether no call was run in the course of `exchanges`.
pub open spec fn nothing_dispatched<T: Config>(exchanges: Seq<Exchange<T>>) -> bool {
    forall|i: int| 0 <= i < exchanges.len() ==> !(#[trigger] exchanges[i] is CallDispatched)
}

/// Whether `exchanges` are questions only: nothing in them tells the runtime
/// to do anything.
pub open spec fn nothing_commanded<T: Config>(exchanges: Seq<Exchange<T>>) -> bool {
    forall|i: int|
        0 <= i < exchanges.len() ==> {
            let e = #[trigger] exchanges[i];
            e is Authorization || e is PreimageFetched || e is CallDecoded || e is CallWeighed
        }
}

} // verus!
