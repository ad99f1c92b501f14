//! What follows from the operations' contracts, whatever the runtime.
//!
//! Each law speaks of the functions in which the operations' contracts are
//! stated, so it holds of every call that meets its conditions.

use vstd::prelude::*;
use crate::config::Config;
use crate::hash::CallHash;
use crate::model::{
    dispatch_exchanges, dispatch_registry, dispatch_result, nothing_commanded, nothing_dispatched,
    remove_exchanges, remove_registry, remove_result, whitelist_registry, whitelist_result,
    DispatchAnswers,
};
use crate::types::{Error, Weight};

verus! {

/// A hash is on the whitelist right after a `whitelist_call` of it that
/// succeeded. It is off the whitelist right after a `remove_whitelisted_call`
/// of it that was not refused for want of permission, and right after a
/// `dispatch_whitelisted_call` of it that succeeded.
pub proof fn membership_after_operation<T: Config>(
    before: Set<CallHash>,
    call_hash: CallHash,
    granted: bool,
    witness: Weight,
    answers: DispatchAnswers<T>,
)
    ensures
        whitelist_result(granted) is Ok ==> whitelist_registry(
            before,
            call_hash,
            granted,
        ).contains(call_hash),
        remove_result(before.contains(call_hash), granted) != Err::<(), Error>(
            Error::NotAuthorized,
        ) ==> !remove_registry(before, call_hash, granted).contains(call_hash),
        dispatch_result(before.contains(call_hash), witness, answers) is Ok ==> !dispatch_registry(
            before,
            call_hash,
            answers.granted,
        ).contains(call_hash),
{
}

/// For a caller with the permission, `remove_whitelisted_call` of a hash that
/// is not whitelisted fails with `Error::CallIsNotWhitelisted`, leaves the
/// whitelist as it was, and tells the runtime to do nothing.
pub proof fn remove_of_unlisted_hash<T: Config>(
    before: Set<CallHash>,
    origin: T::Origin,
    call_hash: CallHash,
)
    requires
        !before.contains(call_hash),
    ensures
        remove_result(false, true) == Err::<(), Error>(Error::CallIsNotWhitelisted),
        remove_registry(before, call_hash, true) == before,
        nothing_commanded(remove_exchanges::<T>(origin, call_hash, false, true)),
{
    assert(before.remove(call_hash) =~= before);
}

/// For a caller with the permission, `dispatch_whitelisted_call` of a hash
/// that is not whitelisted fails with `Error::CallIsNotWhitelisted`, and no
/// call is run.
pub proof fn dispatch_of_unlisted_hash<T: Config>(
    before: Set<CallHash>,
    origin: T::Origin,
    call_hash: CallHash,
    witness: Weight,
    answers: DispatchAnswers<T>,
)
    requires
        !before.contains(call_hash),
        answers.granted,
    ensures
        dispatch_result(false, witness, answers) == Err::<T::Outcome, Error>(
            Error::CallIsNotWhitelisted,
        ),
        dispatch_registry(before, call_hash, true) == before,
        nothing_dispatched(dispatch_exchanges(origin, call_hash, false, witness, answers)),
        nothing_commanded(dispatch_exchanges(origin, call_hash, false, witness, answers)),
{
    assert(before.remove(call_hash) =~= before);
}

/// A call is dispatched at most once: after a `dispatch_whitelisted_call`
/// that succeeded, the next one of the same hash, by a caller with the
/// permission, fails with `Error::CallIsNotWhitelisted`, and no call is run.
pub proof fn dispatch_at_most_once<T: Config>(
    before: Set<CallHash>,
    call_hash: CallHash,
    witness: Weight,
    answers: DispatchAnswers<T>,
    next_origin: T::Origin,
    next_witness: Weight,
    next_answers: DispatchAnswers<T>,
)
    requires
        dispatch_result(before.contains(call_hash), witness, answers) is Ok,
        next_answers.granted,
    ensures
        ({
            let between = dispatch_registry(before, call_hash, answers.granted);
            &&& dispatch_result(between.contains(call_hash), next_witness, next_answers) == Err::<
                T::Outcome,
                Error,
            >(Error::CallIsNotWhitelisted)
            &&& nothing_dispatched(
                dispatch_exchanges(
                    next_origin,
                    call_hash,
                    between.contains(call_hash),
                    next_witness,
                    next_answers,
                ),
            )
        }),
{
}

/// Where the store holds no bytes for a whitelisted hash,
/// `dispatch_whitelisted_call`, for a caller with the permission, fails with
/// `Error::UnavailablePreImage`. The hash is off the whitelist all the same,
/// and no call is run.
pub proof fn dispatch_without_preimage<T: Config>(
    before: Set<CallHash>,
    origin: T::Origin,
    call_hash: CallHash,
    witness: Weight,
    answers: DispatchAnswers<T>,
)
    requires
        before.contains(call_hash),
        answers.granted,
        answers.preimage is None,
    ensures
        dispatch_result(true, witness, answers) == Err::<T::Outcome, Error>(
            Error::UnavailablePreImage,
        ),
        !dispatch_registry(before, call_hash, true).contains(call_hash),
        nothing_dispatched(dispatch_exchanges(origin, call_hash, true, witness, answers)),
{
}

/// Where the call behind a whitelisted hash declares a higher weight than the
/// witness, `dispatch_whitelisted_call`, for a caller with the permission,
/// fails with `Error::InvalidCallWeightWitness`. The hash is off the
/// whitelist all the same, and no call is run.
pub proof fn dispatch_over_weight_witness<T: Config>(
    before: Set<CallHash>,
    origin: T::Origin,
    call_hash: CallHash,
    witness: Weight,
    answers: DispatchAnswers<T>,
)
    requires
        before.contains(call_hash),
        answers.granted,
        answers.preimage is Some,
        answers.decoded is Some,
        answers.weight > witness,
    ensures
        dispatch_result(true, witness, answers) == Err::<T::Outcome, Error>(
            Error::InvalidCallWeightWitness,
        ),
        !dispatch_registry(before, call_hash, true).contains(call_hash),
        nothing_dispatched(dispatch_exchanges(origin, call_hash, true, witness, answers)),
{
}

} // verus!
