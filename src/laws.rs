use vstd::prelude::*;

use crate::auth::spec_check_auth;
use crate::engine::{
    committed, spec_cancel_op, spec_charge_op, spec_get, spec_pause_op, spec_resume_op, spec_start,
};
use crate::subscription::{Status, Subscription, SubscriptionError};

verus! {

/// After a valid start at `now`, the record stored under the key is active and
/// its paid period ends at `now + duration`.
pub proof fn law_start_then_get(
    m: Map<(u64, u64), Subscription>,
    signers: Seq<u64>,
    customer: u64,
    merchant: u64,
    token: u64,
    product_id: u64,
    amount: i128,
    duration: u64,
    now: u64,
)
    requires
        signers.contains(customer),
        !m.contains_key((customer, product_id)),
        amount > 0,
        duration > 0,
        now + duration <= u64::MAX,
    ensures
        ({
            let r = spec_start(
                m,
                signers,
                customer,
                merchant,
                token,
                product_id,
                amount,
                duration,
                now,
                true,
            );
            let g = spec_get(committed(m, (customer, product_id), r), customer, product_id);
            &&& r is Ok
            &&& g is Ok
            &&& g->Ok_0.status == Status::Active
            &&& g->Ok_0.period_end == now + duration
        }),
{
}

/// A charge whose transfer fails is refused and leaves the store exactly as
/// it was; on a record that is due, the refusal is `TransferFailed`.
pub proof fn law_failed_transfer_changes_nothing(
    m: Map<(u64, u64), Subscription>,
    customer: u64,
    product_id: u64,
    now: u64,
)
    ensures
        spec_charge_op(m, customer, product_id, now, false) is Err,
        committed(m, (customer, product_id), spec_charge_op(m, customer, product_id, now, false))
            == m,
        m.contains_key((customer, product_id)) && m[(customer, product_id)].status
            == Status::Active && now >= m[(customer, product_id)].period_end && m[(
            customer,
            product_id,
        )].period_end + m[(customer, product_id)].period_duration <= u64::MAX ==> spec_charge_op(
            m,
            customer,
            product_id,
            now,
            false,
        ) == Err::<Subscription, SubscriptionError>(SubscriptionError::TransferFailed),
{
}

/// A charge succeeds only on an active record whose period has ended, and
/// then moves the period end forward by exactly one period duration.
pub proof fn law_charge_advances_one_period(
    m: Map<(u64, u64), Subscription>,
    customer: u64,
    product_id: u64,
    now: u64,
    transferred: bool,
)
    requires
        spec_charge_op(m, customer, product_id, now, transferred) is Ok,
    ensures
        ({
            let old_sub = m[(customer, product_id)];
            let new_sub = spec_charge_op(m, customer, product_id, now, transferred)->Ok_0;
            let m2 = committed(
                m,
                (customer, product_id),
                spec_charge_op(m, customer, product_id, now, transferred),
            );
            &&& m.contains_key((customer, product_id))
            &&& old_sub.status == Status::Active
            &&& now >= old_sub.period_end
            &&& transferred
            &&& new_sub.period_end == old_sub.period_end + old_sub.period_duration
            &&& new_sub.period_duration == old_sub.period_duration
            &&& new_sub.status == Status::Active
            &&& m2[(customer, product_id)] == new_sub
        }),
{
}

/// One call of the state machine, with its arguments.
pub enum Call {
    Start {
        customer: u64,
        merchant: u64,
        token: u64,
        product_id: u64,
        amount: i128,
        duration: u64,
        now: u64,
        transferred: bool,
    },
    Charge { customer: u64, product_id: u64, now: u64, transferred: bool },
    Pause { customer: u64, product_id: u64 },
    Resume { customer: u64, product_id: u64, now: u64 },
    Cancel { customer: u64, product_id: u64 },
}

/// The store after `call`, made with the authorization of `signers`.
pub open spec fn apply(m: Map<(u64, u64), Subscription>, call: Call, signers: Seq<u64>) -> Map<
    (u64, u64),
    Subscription,
> {
    match call {
        Call::Start {
            customer,
            merchant,
            token,
            product_id,
            amount,
            duration,
            now,
            transferred,
        } => committed(
            m,
            (customer, product_id),
            spec_start(
                m,
                signers,
                customer,
                merchant,
                token,
                product_id,
                amount,
                duration,
                now,
                transferred,
            ),
        ),
        Call::Charge { customer, product_id, now, transferred } => committed(
            m,
            (customer, product_id),
            spec_charge_op(m, customer, product_id, now, transferred),
        ),
        Call::Pause { customer, product_id } => committed(
            m,
            (customer, product_id),
            spec_pause_op(m, signers, customer, product_id),
        ),
        Call::Resume { customer, product_id, now } => committed(
            m,
            (customer, product_id),
            spec_resume_op(m, signers, customer, product_id, now),
        ),
        Call::Cancel { customer, product_id } => committed(
            m,
            (customer, product_id),
            spec_cancel_op(m, signers, customer, product_id),
        ),
    }
}

/// The store after each call of `calls` in turn, each with its signers.
pub open spec fn run(m: Map<(u64, u64), Subscription>, calls: Seq<(Call, Seq<u64>)>) -> Map<
    (u64, u64),
    Subscription,
>
    decreases calls.len(),
{
    if calls.len() == 0 {
        m
    } else {
        apply(run(m, calls.drop_last()), calls.last().0, calls.last().1)
    }
}

/// Whether `call` is a charge, pause or resume of `(customer, product_id)`.
pub open spec fn is_billing_call(call: Call, customer: u64, product_id: u64) -> bool {
    match call {
        Call::Charge { customer: c, product_id: p, .. } => c == customer && p == product_id,
        Call::Pause { customer: c, product_id: p } => c == customer && p == product_id,
        Call::Resume { customer: c, product_id: p, .. } => c == customer && p == product_id,
        _ => false,
    }
}

/// Whether `call`, if it is a charge, succeeds on `m`.
pub open spec fn charge_succeeds(m: Map<(u64, u64), Subscription>, call: Call) -> bool {
    match call {
        Call::Charge { customer, product_id, now, transferred } => spec_charge_op(
            m,
            customer,
            product_id,
            now,
            transferred,
        ) is Ok,
        _ => true,
    }
}

/// The number of charges among `calls`.
pub open spec fn charges_in(calls: Seq<(Call, Seq<u64>)>) -> nat
    decreases calls.len(),
{
    if calls.len() == 0 {
        0
    } else {
        charges_in(calls.drop_last()) + if calls.last().0 is Charge {
            1nat
        } else {
            0nat
        }
    }
}

/// Successful charges of one subscription, with any pauses and resumes in
/// between, move its period end forward by exactly one period each, whatever
/// the times of the calls: after `n` charges it lies `n` periods after where
/// it started, and each charge strictly increases it. Amount and period
/// duration never change.
pub proof fn law_repeated_charges(
    m: Map<(u64, u64), Subscription>,
    customer: u64,
    product_id: u64,
    calls: Seq<(Call, Seq<u64>)>,
)
    requires
        m.contains_key((customer, product_id)),
        m[(customer, product_id)].wf(),
        forall|i: int|
            0 <= i < calls.len() ==> is_billing_call(#[trigger] calls[i].0, customer, product_id),
        forall|i: int|
            0 <= i < calls.len() ==> #[trigger] charge_succeeds(
                run(m, calls.take(i)),
                calls[i].0,
            ),
    ensures
        ({
            let k = (customer, product_id);
            let after = run(m, calls);
            &&& after.contains_key(k)
            &&& after[k].wf()
            &&& after[k].amount == m[k].amount
            &&& after[k].period_duration == m[k].period_duration
            &&& after[k].period_end == m[k].period_end + charges_in(calls) * m[k].period_duration
            &&& charges_in(calls) > 0 ==> after[k].period_end > m[k].period_end
        }),
    decreases calls.len(),
{
    if calls.len() > 0 {
        let k = (customer, product_id);
        let pre = calls.drop_last();
        let n = pre.len() as int;
        assert forall|i: int| 0 <= i < pre.len() implies is_billing_call(
            #[trigger] pre[i].0,
            customer,
            product_id,
        ) by {
            assert(pre[i] == calls[i]);
            assert(is_billing_call(calls[i].0, customer, product_id));
        }
        assert forall|i: int| 0 <= i < pre.len() implies #[trigger] charge_succeeds(
            run(m, pre.take(i)),
            pre[i].0,
        ) by {
            assert(pre.take(i) =~= calls.take(i));
            assert(pre[i] == calls[i]);
            assert(charge_succeeds(run(m, calls.take(i)), calls[i].0));
        }
        law_repeated_charges(m, customer, product_id, pre);
        assert(calls.take(n) =~= pre);
        assert(charge_succeeds(run(m, calls.take(n)), calls[n].0));
        assert(is_billing_call(calls[n].0, customer, product_id));
        let prev = run(m, pre);
        let last = calls[n];
        assert(calls.last() == last);
        assert(run(m, calls) == apply(prev, last.0, last.1));
        let d = m[k].period_duration as int;
        let c = charges_in(pre) as int;
        assert(c * d + d == (c + 1) * d) by (nonlinear_arith);
        assert(c > 0 ==> c * d >= d) by (nonlinear_arith)
            requires
                d > 0,
        ;
        match last.0 {
            Call::Charge { customer: c2, product_id: p2, now, transferred } => {
                assert(c2 == customer && p2 == product_id);
                assert(charges_in(calls) == charges_in(pre) + 1);
                let r = spec_charge_op(prev, customer, product_id, now, transferred);
                assert(r is Ok);
                assert(r->Ok_0 == prev[k].advanced());
                assert(run(m, calls) == prev.insert(k, prev[k].advanced()));
                assert(run(m, calls)[k].period_end == prev[k].period_end + d);
                assert(run(m, calls)[k].period_end == m[k].period_end + (c + 1) * d);
            },
            Call::Pause { customer: c2, product_id: p2 } => {
                assert(c2 == customer && p2 == product_id);
                assert(charges_in(calls) == charges_in(pre));
                let r = spec_pause_op(prev, last.1, customer, product_id);
                if r is Ok {
                    assert(r->Ok_0 == prev[k].with_status(Status::Paused));
                }
                assert(run(m, calls)[k] == prev[k] || run(m, calls)[k] == prev[k].with_status(
                    Status::Paused,
                ));
                assert(run(m, calls)[k].period_end == m[k].period_end + c * d);
            },
            Call::Resume { customer: c2, product_id: p2, now } => {
                assert(c2 == customer && p2 == product_id);
                assert(charges_in(calls) == charges_in(pre));
                let r = spec_resume_op(prev, last.1, customer, product_id, now);
                if r is Ok {
                    assert(r->Ok_0 == prev[k].with_status(Status::Active));
                }
                assert(run(m, calls)[k] == prev[k] || run(m, calls)[k] == prev[k].with_status(
                    Status::Active,
                ));
                assert(run(m, calls)[k].period_end == m[k].period_end + c * d);
            },
            _ => {
                assert(is_billing_call(last.0, customer, product_id));
            },
        }
        assert((c + 1) * d >= d) by (nonlinear_arith)
            requires
                c >= 0,
                d > 0,
        ;
    } else {
        assert(charges_in(calls) == 0);
        assert(run(m, calls) == m);
    }
}

/// A canceled record stays canceled: after any calls whatever, on this key or
/// another, with any signers, the record is still stored and canceled, and a
/// charge, a pause or a resume of it is refused.
pub proof fn law_cancel_is_terminal(
    m: Map<(u64, u64), Subscription>,
    customer: u64,
    product_id: u64,
    calls: Seq<(Call, Seq<u64>)>,
)
    requires
        m.contains_key((customer, product_id)),
        m[(customer, product_id)].status == Status::Canceled,
    ensures
        run(m, calls).contains_key((customer, product_id)),
        run(m, calls)[(customer, product_id)].status == Status::Canceled,
        forall|now: u64, transferred: bool|
            #[trigger] spec_charge_op(run(m, calls), customer, product_id, now, transferred)
                == Err::<Subscription, SubscriptionError>(SubscriptionError::NotActive),
        forall|signers: Seq<u64>|
            #[trigger] spec_pause_op(run(m, calls), signers, customer, product_id) is Err,
        forall|signers: Seq<u64>, now: u64|
            #[trigger] spec_resume_op(run(m, calls), signers, customer, product_id, now) is Err,
    decreases calls.len(),
{
    if calls.len() > 0 {
        law_cancel_is_terminal(m, customer, product_id, calls.drop_last());
    }
}

/// On an authorized record, a resume after the end of the paid period is
/// refused with `PeriodElapsed`, canceled or not; one up to that end makes a
/// record that is not canceled active.
pub proof fn law_resume_window(
    m: Map<(u64, u64), Subscription>,
    signers: Seq<u64>,
    customer: u64,
    product_id: u64,
    now: u64,
)
    requires
        m.contains_key((customer, product_id)),
        spec_check_auth(signers, customer, m[(customer, product_id)].merchant) is Ok,
    ensures
        now > m[(customer, product_id)].period_end ==> spec_resume_op(
            m,
            signers,
            customer,
            product_id,
            now,
        ) == Err::<Subscription, SubscriptionError>(SubscriptionError::PeriodElapsed),
        now <= m[(customer, product_id)].period_end && m[(customer, product_id)].status
            != Status::Canceled ==> spec_resume_op(
            m,
            signers,
            customer,
            product_id,
            now,
        ) == Ok::<Subscription, SubscriptionError>(
            m[(customer, product_id)].with_status(Status::Active),
        ),
{
}

/// The beneficiary's authorization alone suffices to cancel, and to pause a
/// record that is not canceled; with neither the payer's nor the
/// beneficiary's authorization, both are refused as unauthorized.
pub proof fn law_either_party_may_act(
    m: Map<(u64, u64), Subscription>,
    signers: Seq<u64>,
    customer: u64,
    product_id: u64,
)
    requires
        m.contains_key((customer, product_id)),
        !signers.contains(customer),
    ensures
        signers.contains(m[(customer, product_id)].merchant) ==> spec_cancel_op(
            m,
            signers,
            customer,
            product_id,
        ) is Ok,
        signers.contains(m[(customer, product_id)].merchant) && m[(
            customer,
            product_id,
        )].status != Status::Canceled ==> spec_pause_op(m, signers, customer, product_id) is Ok,
        !signers.contains(m[(customer, product_id)].merchant) ==> spec_cancel_op(
            m,
            signers,
            customer,
            product_id,
        ) == Err::<Subscription, SubscriptionError>(SubscriptionError::Unauthorized),
        !signers.contains(m[(customer, product_id)].merchant) ==> spec_pause_op(
            m,
            signers,
            customer,
            product_id,
        ) == Err::<Subscription, SubscriptionError>(SubscriptionError::Unauthorized),
{
}

} // verus!
