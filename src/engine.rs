use vstd::prelude::*;

use crate::auth::{check_auth, check_owner, spec_check_auth};
use crate::subscription::{spec_open, Status, Subscription, SubscriptionError};

verus! {

/// A stored record with its key: the payer and the product.
#[derive(Clone, Copy)]
struct Entry {
    customer: u64,
    product_id: u64,
    sub: Subscription,
}

spec fn key_of(e: Entry) -> (u64, u64) {
    (e.customer, e.product_id)
}

spec fn has_key(s: Seq<Entry>, i: int, k: (u64, u64)) -> bool {
    0 <= i < s.len() && key_of(s[i]) == k
}

spec fn keys_unique(s: Seq<Entry>) -> bool {
    forall|i: int, j: int|
        0 <= i < s.len() && 0 <= j < s.len() && i != j ==> key_of(s[i]) != key_of(s[j])
}

spec fn view_of(s: Seq<Entry>) -> Map<(u64, u64), Subscription> {
    Map::new(
        |k: (u64, u64)| exists|i: int| has_key(s, i, k),
        |k: (u64, u64)| s[choose|i: int| has_key(s, i, k)].sub,
    )
}

proof fn lemma_view_at(s: Seq<Entry>, i: int)
    requires
        keys_unique(s),
        0 <= i < s.len(),
    ensures
        view_of(s).contains_key(key_of(s[i])),
        view_of(s)[key_of(s[i])] == s[i].sub,
{
    let k = key_of(s[i]);
    assert(has_key(s, i, k));
    let j = choose|j: int| has_key(s, j, k);
    assert(j == i);
}

proof fn lemma_set_entry(s: Seq<Entry>, i: int, e: Entry)
    requires
        keys_unique(s),
        0 <= i < s.len(),
        key_of(e) == key_of(s[i]),
    ensures
        keys_unique(s.update(i, e)),
        view_of(s.update(i, e)) =~= view_of(s).insert(key_of(e), e.sub),
{
    let t = s.update(i, e);
    assert forall|a: int, b: int|
        0 <= a < t.len() && 0 <= b < t.len() && a != b implies key_of(t[a]) != key_of(t[b]) by {
        assert(key_of(t[a]) == key_of(s[a]));
        assert(key_of(t[b]) == key_of(s[b]));
    }
    assert forall|k: (u64, u64)|
        #[trigger] view_of(t).contains_key(k) == view_of(s).insert(key_of(e), e.sub).contains_key(k)
            && (view_of(t).contains_key(k) ==> view_of(t)[k] == view_of(s).insert(
            key_of(e),
            e.sub,
        )[k]) by {
        if exists|j: int| has_key(s, j, k) {
            let j = choose|j: int| has_key(s, j, k);
            lemma_view_at(s, j);
            lemma_view_at(t, j);
            if j == i {
                assert(t[j] == e);
            } else {
                assert(t[j] == s[j]);
                assert(key_of(s[j]) != key_of(s[i]));
            }
        } else {
            assert(has_key(s, i, key_of(s[i])));
            assert(k != key_of(e));
            assert forall|j: int| !has_key(t, j, k) by {
                assert(!has_key(s, j, k));
                if 0 <= j < t.len() {
                    assert(key_of(t[j]) == key_of(s[j]));
                }
            }
        }
    }
}

proof fn lemma_push_entry(s: Seq<Entry>, e: Entry)
    requires
        keys_unique(s),
        !view_of(s).contains_key(key_of(e)),
    ensures
        keys_unique(s.push(e)),
        view_of(s.push(e)) =~= view_of(s).insert(key_of(e), e.sub),
{
    let t = s.push(e);
    let n = s.len() as int;
    assert forall|j: int| 0 <= j < n implies key_of(s[j]) != key_of(e) by {
        assert(has_key(s, j, key_of(s[j])));
    }
    assert forall|a: int, b: int|
        0 <= a < t.len() && 0 <= b < t.len() && a != b implies key_of(t[a]) != key_of(t[b]) by {
        if a < n {
            assert(t[a] == s[a]);
        }
        if b < n {
            assert(t[b] == s[b]);
        }
    }
    assert forall|k: (u64, u64)|
        #[trigger] view_of(t).contains_key(k) == view_of(s).insert(key_of(e), e.sub).contains_key(k)
            && (view_of(t).contains_key(k) ==> view_of(t)[k] == view_of(s).insert(
            key_of(e),
            e.sub,
        )[k]) by {
        if k == key_of(e) {
            assert(t[n] == e);
            lemma_view_at(t, n);
        } else if exists|j: int| has_key(s, j, k) {
            let j = choose|j: int| has_key(s, j, k);
            assert(t[j] == s[j]);
            lemma_view_at(s, j);
            lemma_view_at(t, j);
        } else {
            assert forall|j: int| !has_key(t, j, k) by {
                assert(!has_key(s, j, k));
                if 0 <= j < n {
                    assert(t[j] == s[j]);
                }
            }
        }
    }
}

/// The record stored under `(customer, product_id)`, or `NotFound`.
pub open spec fn spec_get(m: Map<(u64, u64), Subscription>, customer: u64, product_id: u64) -> Result<
    Subscription,
    SubscriptionError,
> {
    if m.contains_key((customer, product_id)) {
        Ok(m[(customer, product_id)])
    } else {
        Err(SubscriptionError::NotFound)
    }
}

/// The store after an operation on `key` with result `r`: a success writes the
/// returned record, a refusal writes nothing.
pub open spec fn committed(
    m: Map<(u64, u64), Subscription>,
    key: (u64, u64),
    r: Result<Subscription, SubscriptionError>,
) -> Map<(u64, u64), Subscription> {
    match r {
        Ok(s) => m.insert(key, s),
        Err(_) => m,
    }
}

/// The record stored under `(customer, product_id)`, if any.
pub open spec fn stored_at(m: Map<(u64, u64), Subscription>, customer: u64, product_id: u64) -> Option<
    Subscription,
> {
    if m.contains_key((customer, product_id)) {
        Some(m[(customer, product_id)])
    } else {
        None
    }
}

/// What a start decides before the first payment, given the record already
/// stored under the key: payer authorization, a fresh key, then valid terms.
pub open spec fn spec_start_decision(
    stored: Option<Subscription>,
    signers: Seq<u64>,
    customer: u64,
    merchant: u64,
    token: u64,
    amount: i128,
    duration: u64,
    now: u64,
) -> Result<Subscription, SubscriptionError> {
    if !signers.contains(customer) {
        Err(SubscriptionError::Unauthorized)
    } else if stored is Some {
        Err(SubscriptionError::AlreadyExists)
    } else {
        spec_open(customer, merchant, token, amount, duration, now)
    }
}

/// What a charge decides before the transfer, given the stored record.
pub open spec fn spec_charge_decision(stored: Option<Subscription>, now: u64) -> Result<
    Subscription,
    SubscriptionError,
> {
    match stored {
        None => Err(SubscriptionError::NotFound),
        Some(s) => s.spec_charge(now),
    }
}

/// What a pause decides under the OR policy, given the stored record.
pub open spec fn spec_pause_decision(
    stored: Option<Subscription>,
    signers: Seq<u64>,
    customer: u64,
) -> Result<Subscription, SubscriptionError> {
    match stored {
        None => Err(SubscriptionError::NotFound),
        Some(s) => match spec_check_auth(signers, customer, s.merchant) {
            Err(e) => Err(e),
            Ok(_) => s.spec_pause(),
        },
    }
}

/// What a resume at `now` decides under the OR policy, given the stored
/// record.
pub open spec fn spec_resume_decision(
    stored: Option<Subscription>,
    signers: Seq<u64>,
    customer: u64,
    now: u64,
) -> Result<Subscription, SubscriptionError> {
    match stored {
        None => Err(SubscriptionError::NotFound),
        Some(s) => match spec_check_auth(signers, customer, s.merchant) {
            Err(e) => Err(e),
            Ok(_) => s.spec_resume(now),
        },
    }
}

/// What a cancel decides under the OR policy, given the stored record.
pub open spec fn spec_cancel_decision(
    stored: Option<Subscription>,
    signers: Seq<u64>,
    customer: u64,
) -> Result<Subscription, SubscriptionError> {
    match stored {
        None => Err(SubscriptionError::NotFound),
        Some(s) => match spec_check_auth(signers, customer, s.merchant) {
            Err(e) => Err(e),
            Ok(_) => Ok(s.with_status(Status::Canceled)),
        },
    }
}

/// Outcome of a start: the decision, then the first payment's transfer.
pub open spec fn spec_start(
    m: Map<(u64, u64), Subscription>,
    signers: Seq<u64>,
    customer: u64,
    merchant: u64,
    token: u64,
    product_id: u64,
    amount: i128,
    duration: u64,
    now: u64,
    transferred: bool,
) -> Result<Subscription, SubscriptionError> {
    match spec_start_decision(
        stored_at(m, customer, product_id),
        signers,
        customer,
        merchant,
        token,
        amount,
        duration,
        now,
    ) {
        Err(e) => Err(e),
        Ok(s) => if transferred {
            Ok(s)
        } else {
            Err(SubscriptionError::TransferFailed)
        },
    }
}

/// Outcome of a charge at `now`, where `transferred` tells whether the
/// transfer of the period's amount succeeded.
pub open spec fn spec_charge_op(
    m: Map<(u64, u64), Subscription>,
    customer: u64,
    product_id: u64,
    now: u64,
    transferred: bool,
) -> Result<Subscription, SubscriptionError> {
    match spec_charge_decision(stored_at(m, customer, product_id), now) {
        Err(e) => Err(e),
        Ok(n) => if transferred {
            Ok(n)
        } else {
            Err(SubscriptionError::TransferFailed)
        },
    }
}

/// Outcome of a pause under the OR policy.
pub open spec fn spec_pause_op(
    m: Map<(u64, u64), Subscription>,
    signers: Seq<u64>,
    customer: u64,
    product_id: u64,
) -> Result<Subscription, SubscriptionError> {
    spec_pause_decision(stored_at(m, customer, product_id), signers, customer)
}

/// Outcome of a resume at `now` under the OR policy.
pub open spec fn spec_resume_op(
    m: Map<(u64, u64), Subscription>,
    signers: Seq<u64>,
    customer: u64,
    product_id: u64,
    now: u64,
) -> Result<Subscription, SubscriptionError> {
    spec_resume_decision(stored_at(m, customer, product_id), signers, customer, now)
}

/// Outcome of a cancel under the OR policy.
pub open spec fn spec_cancel_op(
    m: Map<(u64, u64), Subscription>,
    signers: Seq<u64>,
    customer: u64,
    product_id: u64,
) -> Result<Subscription, SubscriptionError> {
    spec_cancel_decision(stored_at(m, customer, product_id), signers, customer)
}

/// Decides a start from the record already stored under the key, if any.
/// On `Ok`, the returned record is to be written once the first payment's
/// transfer has succeeded.
pub fn start_decision(
    stored: Option<Subscription>,
    signers: &Vec<u64>,
    customer: u64,
    merchant: u64,
    token: u64,
    amount: i128,
    duration: u64,
    now: u64,
) -> (r: Result<Subscription, SubscriptionError>)
    ensures
        r == spec_start_decision(stored, signers@, customer, merchant, token, amount, duration, now),
        r is Ok ==> r->Ok_0.wf(),
{
    check_owner(signers, customer)?;
    match stored {
        Some(_) => Err(SubscriptionError::AlreadyExists),
        None => Subscription::open(customer, merchant, token, amount, duration, now),
    }
}

/// Decides a charge at `now` from the stored record. On `Ok`, the returned
/// record is to be written once the transfer of its amount has succeeded.
pub fn charge_decision(stored: Option<Subscription>, now: u64) -> (r: Result<
    Subscription,
    SubscriptionError,
>)
    ensures
        r == spec_charge_decision(stored, now),
        stored is Some && stored->Some_0.wf() && r is Ok ==> r->Ok_0.wf(),
{
    match stored {
        None => Err(SubscriptionError::NotFound),
        Some(s) => s.charge_step(now),
    }
}

/// Decides a pause from the stored record; `signers` are the principals that
/// authorized the call.
pub fn pause_decision(stored: Option<Subscription>, signers: &Vec<u64>, customer: u64) -> (r:
    Result<Subscription, SubscriptionError>)
    ensures
        r == spec_pause_decision(stored, signers@, customer),
{
    match stored {
        None => Err(SubscriptionError::NotFound),
        Some(s) => {
            check_auth(signers, customer, s.merchant)?;
            s.pause_step()
        },
    }
}

/// Decides a resume at `now` from the stored record; `signers` are the
/// principals that authorized the call.
pub fn resume_decision(
    stored: Option<Subscription>,
    signers: &Vec<u64>,
    customer: u64,
    now: u64,
) -> (r: Result<Subscription, SubscriptionError>)
    ensures
        r == spec_resume_decision(stored, signers@, customer, now),
{
    match stored {
        None => Err(SubscriptionError::NotFound),
        Some(s) => {
            check_auth(signers, customer, s.merchant)?;
            s.resume_step(now)
        },
    }
}

/// Decides a cancel from the stored record; `signers` are the principals that
/// authorized the call.
pub fn cancel_decision(stored: Option<Subscription>, signers: &Vec<u64>, customer: u64) -> (r:
    Result<Subscription, SubscriptionError>)
    ensures
        r == spec_cancel_decision(stored, signers@, customer),
{
    match stored {
        None => Err(SubscriptionError::NotFound),
        Some(s) => {
            check_auth(signers, customer, s.merchant)?;
            Ok(s.cancel_step())
        },
    }
}

/// The subscriptions, one per (payer, product) key. Records are never
/// removed: a canceled one stays stored with its terminal status.
pub struct SubscriptionEngine {
    entries: Vec<Entry>,
}

impl View for SubscriptionEngine {
    type V = Map<(u64, u64), Subscription>;

    closed spec fn view(&self) -> Map<(u64, u64), Subscription> {
        view_of(self.entries@)
    }
}

impl SubscriptionEngine {
    /// The store invariant: one record per key, each with a positive amount
    /// and a positive period.
    pub closed spec fn wf(&self) -> bool {
        keys_unique(self.entries@) && forall|i: int|
            0 <= i < self.entries@.len() ==> #[trigger] self.entries@[i].sub.wf()
    }

    /// Every stored record keeps the record invariant.
    pub proof fn lemma_records_wf(&self)
        requires
            self.wf(),
        ensures
            forall|k: (u64, u64)| #[trigger] self@.contains_key(k) ==> self@[k].wf(),
    {
        assert forall|k: (u64, u64)| #[trigger] self@.contains_key(k) implies self@[k].wf() by {
            let i = choose|i: int| has_key(self.entries@, i, k);
            lemma_view_at(self.entries@, i);
        }
    }

    /// An empty store.
    pub fn new() -> (r: Self)
        ensures
            r.wf(),
            r@ == Map::<(u64, u64), Subscription>::empty(),
    {
        let r = SubscriptionEngine { entries: Vec::new() };
        assert(r@ =~= Map::<(u64, u64), Subscription>::empty());
        r
    }

    fn find(&self, customer: u64, product_id: u64) -> (r: Option<usize>)
        requires
            self.wf(),
        ensures
            match r {
                Some(i) => i < self.entries@.len() && key_of(self.entries@[i as int]) == (
                    customer,
                    product_id,
                ) && self@.contains_key((customer, product_id)) && self@[(customer, product_id)]
                    == self.entries@[i as int].sub && self.entries@[i as int].sub.wf(),
                None => !self@.contains_key((customer, product_id)),
            },
    {
        let mut i: usize = 0;
        while i < self.entries.len()
            invariant
                self.wf(),
                i <= self.entries@.len(),
                forall|j: int| 0 <= j < i ==> !has_key(self.entries@, j, (customer, product_id)),
            decreases self.entries@.len() - i,
        {
            let e = self.entries[i];
            if e.customer == customer && e.product_id == product_id {
                proof {
                    lemma_view_at(self.entries@, i as int);
                }
                return Some(i);
            }
            i = i + 1;
        }
        None
    }

    fn write(&mut self, i: usize, customer: u64, product_id: u64, sub: Subscription)
        requires
            old(self).wf(),
            sub.wf(),
            i < old(self).entries@.len(),
            key_of(old(self).entries@[i as int]) == (customer, product_id),
        ensures
            final(self).wf(),
            final(self)@ == old(self)@.insert((customer, product_id), sub),
    {
        let e = Entry { customer, product_id, sub };
        proof {
            lemma_set_entry(self.entries@, i as int, e);
        }
        self.entries.set(i, e);
    }

    /// The record stored under `(customer, product_id)`.
    pub fn get_subscription(&self, customer: u64, product_id: u64) -> (r: Result<
        Subscription,
        SubscriptionError,
    >)
        requires
            self.wf(),
        ensures
            r == spec_get(self@, customer, product_id),
    {
        match self.find(customer, product_id) {
            Some(i) => Ok(self.entries[i].sub),
            None => Err(SubscriptionError::NotFound),
        }
    }

    fn stored(&self, customer: u64, product_id: u64) -> (r: (Option<usize>, Option<Subscription>))
        requires
            self.wf(),
        ensures
            r.1 == stored_at(self@, customer, product_id),
            r.0 is Some <==> r.1 is Some,
            r.0 is Some ==> ({
                let i = r.0->Some_0;
                &&& i < self.entries@.len()
                &&& key_of(self.entries@[i as int]) == (customer, product_id)
                &&& r.1->Some_0.wf()
            }),
    {
        match self.find(customer, product_id) {
            Some(i) => (Some(i), Some(self.entries[i].sub)),
            None => (None, None),
        }
    }

    /// Starts a subscription of `customer` to `product_id`, paid to `merchant`
    /// in `token`. `signers` are the principals that authorized the call, and
    /// `transferred` tells whether the first payment's transfer succeeded; the
    /// record is written only then.
    pub fn start(
        &mut self,
        customer: u64,
        merchant: u64,
        token: u64,
        product_id: u64,
        amount: i128,
        duration: u64,
        signers: &Vec<u64>,
        now: u64,
        transferred: bool,
    ) -> (r: Result<Subscription, SubscriptionError>)
        requires
            old(self).wf(),
        ensures
            final(self).wf(),
            r == spec_start(
                old(self)@,
                signers@,
                customer,
                merchant,
                token,
                product_id,
                amount,
                duration,
                now,
                transferred,
            ),
            final(self)@ == committed(old(self)@, (customer, product_id), r),
    {
        let (_, stored) = self.stored(customer, product_id);
        let sub = start_decision(stored, signers, customer, merchant, token, amount, duration, now)?;
        if !transferred {
            return Err(SubscriptionError::TransferFailed);
        }
        let e = Entry { customer, product_id, sub };
        proof {
            lemma_push_entry(self.entries@, e);
        }
        self.entries.push(e);
        Ok(sub)
    }

    /// Collects one period's payment at `now`. `transferred` tells whether the
    /// transfer of the amount succeeded; only then does the period end move
    /// forward, by exactly one period.
    pub fn charge(&mut self, customer: u64, product_id: u64, now: u64, transferred: bool) -> (r:
        Result<Subscription, SubscriptionError>)
        requires
            old(self).wf(),
        ensures
            final(self).wf(),
            r == spec_charge_op(old(self)@, customer, product_id, now, transferred),
            final(self)@ == committed(old(self)@, (customer, product_id), r),
    {
        let (found, stored) = self.stored(customer, product_id);
        let next = charge_decision(stored, now)?;
        if !transferred {
            return Err(SubscriptionError::TransferFailed);
        }
        let i = found.unwrap();
        self.write(i, customer, product_id, next);
        Ok(next)
    }

    /// Pauses a subscription, on the payer's or the beneficiary's authority.
    pub fn pause(&mut self, customer: u64, product_id: u64, signers: &Vec<u64>) -> (r: Result<
        Subscription,
        SubscriptionError,
    >)
        requires
            old(self).wf(),
        ensures
            final(self).wf(),
            r == spec_pause_op(old(self)@, signers@, customer, product_id),
            final(self)@ == committed(old(self)@, (customer, product_id), r),
    {
        let (found, stored) = self.stored(customer, product_id);
        let next = pause_decision(stored, signers, customer)?;
        let i = found.unwrap();
        self.write(i, customer, product_id, next);
        Ok(next)
    }

    /// Resumes a subscription at `now`, on the payer's or the beneficiary's
    /// authority, while its paid period has not lapsed.
    pub fn resume(&mut self, customer: u64, product_id: u64, signers: &Vec<u64>, now: u64) -> (r:
        Result<Subscription, SubscriptionError>)
        requires
            old(self).wf(),
        ensures
            final(self).wf(),
            r == spec_resume_op(old(self)@, signers@, customer, product_id, now),
            final(self)@ == committed(old(self)@, (customer, product_id), r),
    {
        let (found, stored) = self.stored(customer, product_id);
        let next = resume_decision(stored, signers, customer, now)?;
        let i = found.unwrap();
        self.write(i, customer, product_id, next);
        Ok(next)
    }

    /// Cancels a subscription for good, on the payer's or the beneficiary's
    /// authority.
    pub fn cancel(&mut self, customer: u64, product_id: u64, signers: &Vec<u64>) -> (r: Result<
        Subscription,
        SubscriptionError,
    >)
        requires
            old(self).wf(),
        ensures
            final(self).wf(),
            r == spec_cancel_op(old(self)@, signers@, customer, product_id),
            final(self)@ == committed(old(self)@, (customer, product_id), r),
    {
        let (found, stored) = self.stored(customer, product_id);
        let next = cancel_decision(stored, signers, customer)?;
        let i = found.unwrap();
        self.write(i, customer, product_id, next);
        Ok(next)
    }
}

} // verus!
