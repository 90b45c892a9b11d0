use vstd::prelude::*;

use crate::subscription::SubscriptionError;

verus! {

/// The principal whose authorization an operation relies on.
#[derive(Clone, Copy, Debug, PartialEq, Eq, Structural)]
pub enum Principal {
    Payer,
    Beneficiary,
}

/// Under the OR policy, the principal that carries the call: the payer when
/// the payer signed, otherwise the beneficiary when it signed.
pub open spec fn spec_check_auth(signers: Seq<u64>, customer: u64, merchant: u64) -> Result<
    Principal,
    SubscriptionError,
> {
    if signers.contains(customer) {
        Ok(Principal::Payer)
    } else if signers.contains(merchant) {
        Ok(Principal::Beneficiary)
    } else {
        Err(SubscriptionError::Unauthorized)
    }
}

/// Whether `who` is among the principals that authorized the current call.
pub fn is_authorized(signers: &Vec<u64>, who: u64) -> (r: bool)
    ensures
        r == signers@.contains(who),
{
    let mut i: usize = 0;
    while i < signers.len()
        invariant
            i <= signers@.len(),
            forall|j: int| 0 <= j < i ==> signers@[j] != who,
        decreases signers@.len() - i,
    {
        if signers[i] == who {
            assert(signers@[i as int] == who);
            return true;
        }
        i = i + 1;
    }
    false
}

/// The strict-owner policy: only the payer may act.
pub fn check_owner(signers: &Vec<u64>, customer: u64) -> (r: Result<(), SubscriptionError>)
    ensures
        r == (if signers@.contains(customer) {
            Ok(())
        } else {
            Err(SubscriptionError::Unauthorized)
        }),
{
    if is_authorized(signers, customer) {
        Ok(())
    } else {
        Err(SubscriptionError::Unauthorized)
    }
}

/// The OR policy: the payer or the beneficiary may act. The payer is looked
/// for first; only when it did not sign is the beneficiary's signature needed.
pub fn check_auth(signers: &Vec<u64>, customer: u64, merchant: u64) -> (r: Result<
    Principal,
    SubscriptionError,
>)
    ensures
        r == spec_check_auth(signers@, customer, merchant),
{
    if is_authorized(signers, customer) {
        Ok(Principal::Payer)
    } else if is_authorized(signers, merchant) {
        Ok(Principal::Beneficiary)
    } else {
        Err(SubscriptionError::Unauthorized)
    }
}

} // verus!
