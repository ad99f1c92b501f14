//! The shape in which a preimage store keeps the bytes of a call.

use vstd::prelude::*;

verus! {

/// The encoded bytes of a call, with the account that supplied them and the
/// stake it put down, where there is one.
///
/// The pallet never holds such a value: it knows a preimage by its hash, has
/// the store note or drop the request for it, and reads the bytes. The type
/// is here for the stores that serve it.
#[derive(Clone)]
pub struct Preimage<BoundedVec, Balance, AccountId> {
    /// The encoded call.
    pub preimage: BoundedVec,
    /// Who supplied the bytes, and the stake that is due back to them.
    pub deposit: Option<(AccountId, Balance)>,
}

} // verus!
