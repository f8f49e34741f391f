//! The registry of signers, the one part of the backend that changes after
//! the API is built.

use parking_lot::RwLock;
use vstd::prelude::*;

verus! {

/// How many signers a development node is given.
pub const DEV_SIGNER_COUNT: usize = 20;

/// `parking_lot::lock_api::RwLock`, a reader-writer lock around a value.
#[verifier::external_type_specification]
#[verifier::external_body]
#[verifier::reject_recursive_types(R)]
#[verifier::reject_recursive_types(T)]
pub struct ExRwLock<R, T: ?Sized>(parking_lot::lock_api::RwLock<R, T>);

/// `parking_lot::RawRwLock`, the lock that `parking_lot::RwLock` is made of.
#[verifier::external_type_specification]
#[verifier::external_body]
pub struct ExRawRwLock<const RECURSIVE: bool>(parking_lot::RawRwLock<RECURSIVE>);

/// Calls `RwLock::new` of parking_lot: a new, unlocked lock around `signers`.
/// Nothing is claimed of the lock, whose contents any holder may change.
#[verifier::external_body]
pub(crate) fn new_signer_registry<S>(signers: Vec<S>) -> (registry: RwLock<Vec<S>>) {
    RwLock::new(signers)
}

/// Calls `RwLock::write` of parking_lot and stores `signers` through the
/// guard. The call waits until no reader and no writer holds the lock.
#[verifier::external_body]
pub(crate) fn replace_signers<S>(registry: &RwLock<Vec<S>>, signers: Vec<S>) {
    *registry.write() = signers;
}

/// Makes the signers of a development node: `DEV_SIGNER_COUNT` of them, each
/// one a result of `new_signer`.
pub fn dev_signers<S, F: Fn() -> S>(new_signer: &F) -> (signers: Vec<S>)
    requires
        new_signer.requires(()),
    ensures
        signers.len() == DEV_SIGNER_COUNT,
        forall|i: int| 0 <= i < signers.len() ==> new_signer.ensures((), #[trigger] signers[i]),
{
    let mut signers: Vec<S> = Vec::new();
    while signers.len() < DEV_SIGNER_COUNT
        invariant
            signers.len() <= DEV_SIGNER_COUNT,
            new_signer.requires(()),
            forall|i: int| 0 <= i < signers.len() ==> new_signer.ensures((), #[trigger] signers[i]),
        decreases DEV_SIGNER_COUNT - signers.len(),
    {
        let signer = new_signer();
        signers.push(signer);
    }
    signers
}

} // verus!
