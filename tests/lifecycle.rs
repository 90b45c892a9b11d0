use subscription_engine::auth::{check_auth, check_owner, is_authorized};
use subscription_engine::engine::{
    cancel_decision, charge_decision, pause_decision, resume_decision, start_decision,
};
use subscription_engine::{Principal, Status, Subscription, SubscriptionEngine, SubscriptionError};

const PAYER: u64 = 1;
const MERCHANT: u64 = 2;
const TOKEN: u64 = 9;
const PRODUCT: u64 = 77;

fn started(amount: i128, duration: u64, now: u64) -> SubscriptionEngine {
    let mut e = SubscriptionEngine::new();
    let r = e.start(PAYER, MERCHANT, TOKEN, PRODUCT, amount, duration, &vec![PAYER], now, true);
    assert!(r.is_ok());
    e
}

#[test]
fn scenario_start_charge_cancel() {
    let mut e = started(100, 30, 0);
    let s = e.get_subscription(PAYER, PRODUCT).unwrap();
    assert_eq!(s.period_end, 30);
    assert_eq!(s.status, Status::Active);
    assert_eq!(s.amount, 100);
    assert_eq!(e.charge(PAYER, PRODUCT, 29, true), Err(SubscriptionError::PeriodNotElapsed));
    let c = e.charge(PAYER, PRODUCT, 30, true).unwrap();
    assert_eq!(c.period_end, 60);
    assert_eq!(e.get_subscription(PAYER, PRODUCT).unwrap().period_end, 60);
    assert!(e.cancel(PAYER, PRODUCT, &vec![PAYER]).is_ok());
    assert_eq!(e.charge(PAYER, PRODUCT, 61, true), Err(SubscriptionError::NotActive));
}

#[test]
fn start_then_get_is_active() {
    let e = started(5, 10, 1000);
    let s = e.get_subscription(PAYER, PRODUCT).unwrap();
    assert_eq!(
        s,
        Subscription {
            customer: PAYER,
            merchant: MERCHANT,
            token: TOKEN,
            amount: 5,
            period_duration: 10,
            period_end: 1010,
            status: Status::Active,
        }
    );
}

#[test]
fn start_twice_is_refused() {
    let mut e = started(5, 10, 0);
    let r = e.start(PAYER, MERCHANT, TOKEN, PRODUCT, 7, 20, &vec![PAYER], 3, true);
    assert_eq!(r, Err(SubscriptionError::AlreadyExists));
    assert_eq!(e.get_subscription(PAYER, PRODUCT).unwrap().amount, 5);
    assert!(e.start(PAYER, MERCHANT, TOKEN, PRODUCT + 1, 7, 20, &vec![PAYER], 3, true).is_ok());
    assert_eq!(e.get_subscription(PAYER, PRODUCT + 1).unwrap().period_end, 23);
}

#[test]
fn start_needs_the_payer() {
    let mut e = SubscriptionEngine::new();
    let r = e.start(PAYER, MERCHANT, TOKEN, PRODUCT, 5, 10, &vec![MERCHANT], 0, true);
    assert_eq!(r, Err(SubscriptionError::Unauthorized));
    assert_eq!(e.get_subscription(PAYER, PRODUCT), Err(SubscriptionError::NotFound));
}

#[test]
fn start_rejects_bad_terms() {
    let mut e = SubscriptionEngine::new();
    let payer = vec![PAYER];
    assert_eq!(
        e.start(PAYER, MERCHANT, TOKEN, PRODUCT, 0, 10, &payer, 0, true),
        Err(SubscriptionError::InvalidArgument)
    );
    assert_eq!(
        e.start(PAYER, MERCHANT, TOKEN, PRODUCT, -5, 10, &payer, 0, true),
        Err(SubscriptionError::InvalidArgument)
    );
    assert_eq!(
        e.start(PAYER, MERCHANT, TOKEN, PRODUCT, 5, 0, &payer, 0, true),
        Err(SubscriptionError::InvalidArgument)
    );
    assert_eq!(
        e.start(PAYER, MERCHANT, TOKEN, PRODUCT, 5, 2, &payer, u64::MAX - 1, true),
        Err(SubscriptionError::TimestampOverflow)
    );
    assert_eq!(e.get_subscription(PAYER, PRODUCT), Err(SubscriptionError::NotFound));
}

#[test]
fn start_at_the_last_timestamp() {
    let mut e = SubscriptionEngine::new();
    let r = e.start(PAYER, MERCHANT, TOKEN, PRODUCT, 5, 1, &vec![PAYER], u64::MAX - 1, true);
    assert_eq!(r.unwrap().period_end, u64::MAX);
    assert_eq!(e.charge(PAYER, PRODUCT, u64::MAX, true), Err(SubscriptionError::TimestampOverflow));
    assert_eq!(e.get_subscription(PAYER, PRODUCT).unwrap().period_end, u64::MAX);
}

#[test]
fn start_with_failed_transfer_writes_nothing() {
    let mut e = SubscriptionEngine::new();
    let r = e.start(PAYER, MERCHANT, TOKEN, PRODUCT, 5, 10, &vec![PAYER], 0, false);
    assert_eq!(r, Err(SubscriptionError::TransferFailed));
    assert_eq!(e.get_subscription(PAYER, PRODUCT), Err(SubscriptionError::NotFound));
}

#[test]
fn failed_charge_transfer_changes_nothing() {
    let mut e = started(100, 30, 0);
    let before = e.get_subscription(PAYER, PRODUCT).unwrap();
    assert_eq!(e.charge(PAYER, PRODUCT, 45, false), Err(SubscriptionError::TransferFailed));
    assert_eq!(e.get_subscription(PAYER, PRODUCT).unwrap(), before);
}

#[test]
fn charge_advances_from_period_end_not_from_now() {
    let mut e = started(100, 30, 0);
    let c = e.charge(PAYER, PRODUCT, 50, true).unwrap();
    assert_eq!(c.period_end, 60);
    assert_eq!(c.status, Status::Active);
}

#[test]
fn repeated_charges_step_by_one_period() {
    let mut e = started(100, 30, 0);
    assert_eq!(e.charge(PAYER, PRODUCT, 100, true).unwrap().period_end, 60);
    assert_eq!(e.charge(PAYER, PRODUCT, 100, true).unwrap().period_end, 90);
    assert_eq!(e.charge(PAYER, PRODUCT, 100, true).unwrap().period_end, 120);
    assert_eq!(e.charge(PAYER, PRODUCT, 100, true), Err(SubscriptionError::PeriodNotElapsed));
}

#[test]
fn charge_of_unknown_key() {
    let mut e = started(100, 30, 0);
    assert_eq!(e.charge(PAYER, PRODUCT + 1, 30, true), Err(SubscriptionError::NotFound));
    assert_eq!(e.charge(MERCHANT, PRODUCT, 30, true), Err(SubscriptionError::NotFound));
}

#[test]
fn charge_of_paused_record() {
    let mut e = started(100, 30, 0);
    assert_eq!(e.pause(PAYER, PRODUCT, &vec![PAYER]).unwrap().status, Status::Paused);
    assert_eq!(e.charge(PAYER, PRODUCT, 30, true), Err(SubscriptionError::NotActive));
    assert_eq!(e.resume(PAYER, PRODUCT, &vec![PAYER], 30).unwrap().status, Status::Active);
    assert_eq!(e.charge(PAYER, PRODUCT, 30, true).unwrap().period_end, 60);
}

#[test]
fn cancel_is_terminal() {
    let mut e = started(100, 30, 0);
    let both = vec![PAYER, MERCHANT];
    assert_eq!(e.cancel(PAYER, PRODUCT, &both).unwrap().status, Status::Canceled);
    for now in [0u64, 10, 30, 1000] {
        assert_eq!(e.charge(PAYER, PRODUCT, now, true), Err(SubscriptionError::NotActive));
        assert_eq!(e.pause(PAYER, PRODUCT, &both), Err(SubscriptionError::NotActive));
        let expected = if now > 30 {
            SubscriptionError::PeriodElapsed
        } else {
            SubscriptionError::NotActive
        };
        assert_eq!(e.resume(PAYER, PRODUCT, &both, now), Err(expected));
    }
    assert_eq!(
        e.start(PAYER, MERCHANT, TOKEN, PRODUCT, 100, 30, &both, 0, true),
        Err(SubscriptionError::AlreadyExists)
    );
    assert_eq!(e.get_subscription(PAYER, PRODUCT).unwrap().status, Status::Canceled);
}

#[test]
fn resume_window() {
    let mut e = started(100, 30, 0);
    let payer = vec![PAYER];
    e.pause(PAYER, PRODUCT, &payer).unwrap();
    assert_eq!(e.resume(PAYER, PRODUCT, &payer, 31), Err(SubscriptionError::PeriodElapsed));
    assert_eq!(e.get_subscription(PAYER, PRODUCT).unwrap().status, Status::Paused);
    assert_eq!(e.resume(PAYER, PRODUCT, &payer, 30).unwrap().status, Status::Active);
    assert_eq!(e.get_subscription(PAYER, PRODUCT).unwrap().status, Status::Active);
}

#[test]
fn beneficiary_alone_may_pause_and_cancel() {
    let mut e = started(100, 30, 0);
    let merchant = vec![MERCHANT];
    assert_eq!(e.pause(PAYER, PRODUCT, &merchant).unwrap().status, Status::Paused);
    assert_eq!(e.resume(PAYER, PRODUCT, &merchant, 5).unwrap().status, Status::Active);
    assert_eq!(e.cancel(PAYER, PRODUCT, &merchant).unwrap().status, Status::Canceled);
}

#[test]
fn neither_party_may_not_act() {
    let mut e = started(100, 30, 0);
    let stranger = vec![5u64, 6];
    assert_eq!(e.pause(PAYER, PRODUCT, &stranger), Err(SubscriptionError::Unauthorized));
    assert_eq!(e.cancel(PAYER, PRODUCT, &stranger), Err(SubscriptionError::Unauthorized));
    assert_eq!(e.resume(PAYER, PRODUCT, &vec![], 5), Err(SubscriptionError::Unauthorized));
    assert_eq!(e.get_subscription(PAYER, PRODUCT).unwrap().status, Status::Active);
}

#[test]
fn operations_on_missing_record() {
    let mut e = SubscriptionEngine::new();
    let payer = vec![PAYER];
    assert_eq!(e.pause(PAYER, PRODUCT, &payer), Err(SubscriptionError::NotFound));
    assert_eq!(e.resume(PAYER, PRODUCT, &payer, 0), Err(SubscriptionError::NotFound));
    assert_eq!(e.cancel(PAYER, PRODUCT, &payer), Err(SubscriptionError::NotFound));
}

#[test]
fn authorization_policy() {
    assert!(is_authorized(&vec![3, 4, 5], 5));
    assert!(!is_authorized(&vec![3, 4, 5], 6));
    assert!(!is_authorized(&vec![], 6));
    assert_eq!(check_auth(&vec![PAYER, MERCHANT], PAYER, MERCHANT), Ok(Principal::Payer));
    assert_eq!(check_auth(&vec![MERCHANT], PAYER, MERCHANT), Ok(Principal::Beneficiary));
    assert_eq!(check_auth(&vec![7], PAYER, MERCHANT), Err(SubscriptionError::Unauthorized));
    assert_eq!(check_owner(&vec![PAYER], PAYER), Ok(()));
    assert_eq!(check_owner(&vec![MERCHANT], PAYER), Err(SubscriptionError::Unauthorized));
}

#[test]
fn record_steps() {
    let s = Subscription::open(PAYER, MERCHANT, TOKEN, 100, 30, 10).unwrap();
    assert_eq!(s.period_end, 40);
    assert_eq!(s.charge_step(39), Err(SubscriptionError::PeriodNotElapsed));
    assert_eq!(s.charge_step(40).unwrap().period_end, 70);
    let p = s.pause_step().unwrap();
    assert_eq!(p.status, Status::Paused);
    assert_eq!(p.period_end, 40);
    assert_eq!(p.resume_step(41), Err(SubscriptionError::PeriodElapsed));
    assert_eq!(p.resume_step(40).unwrap().status, Status::Active);
    let c = p.cancel_step();
    assert_eq!(c.status, Status::Canceled);
    assert_eq!(c.pause_step(), Err(SubscriptionError::NotActive));
    assert_eq!(c.resume_step(0), Err(SubscriptionError::NotActive));
    assert_eq!(c.charge_step(100), Err(SubscriptionError::NotActive));
}

#[test]
fn resume_of_canceled_record_after_period_end() {
    let mut e = started(100, 30, 0);
    e.cancel(PAYER, PRODUCT, &vec![PAYER]).unwrap();
    assert_eq!(e.resume(PAYER, PRODUCT, &vec![PAYER], 31), Err(SubscriptionError::PeriodElapsed));
    assert_eq!(e.resume(PAYER, PRODUCT, &vec![PAYER], 30), Err(SubscriptionError::NotActive));
    assert_eq!(e.get_subscription(PAYER, PRODUCT).unwrap().status, Status::Canceled);
}

#[test]
fn charges_with_pause_and_resume_between() {
    let mut e = started(100, 30, 0);
    let payer = vec![PAYER];
    assert_eq!(e.charge(PAYER, PRODUCT, 30, true).unwrap().period_end, 60);
    e.pause(PAYER, PRODUCT, &payer).unwrap();
    assert_eq!(e.get_subscription(PAYER, PRODUCT).unwrap().period_end, 60);
    e.resume(PAYER, PRODUCT, &payer, 55).unwrap();
    let c = e.charge(PAYER, PRODUCT, 75, true).unwrap();
    assert_eq!(c.period_end, 90);
    assert_eq!(c.period_duration, 30);
    assert_eq!(c.amount, 100);
}

#[test]
fn decisions_on_the_stored_record() {
    let payer = vec![PAYER];
    let merchant = vec![MERCHANT];
    let s = start_decision(None, &payer, PAYER, MERCHANT, TOKEN, 100, 30, 0).unwrap();
    assert_eq!(s.period_end, 30);
    assert_eq!(
        start_decision(Some(s), &payer, PAYER, MERCHANT, TOKEN, 100, 30, 0),
        Err(SubscriptionError::AlreadyExists)
    );
    assert_eq!(
        start_decision(None, &merchant, PAYER, MERCHANT, TOKEN, 100, 30, 0),
        Err(SubscriptionError::Unauthorized)
    );
    assert_eq!(charge_decision(None, 30), Err(SubscriptionError::NotFound));
    assert_eq!(charge_decision(Some(s), 29), Err(SubscriptionError::PeriodNotElapsed));
    assert_eq!(charge_decision(Some(s), 30).unwrap().period_end, 60);
    assert_eq!(pause_decision(None, &payer, PAYER), Err(SubscriptionError::NotFound));
    assert_eq!(pause_decision(Some(s), &vec![8], PAYER), Err(SubscriptionError::Unauthorized));
    let p = pause_decision(Some(s), &merchant, PAYER).unwrap();
    assert_eq!(p.status, Status::Paused);
    assert_eq!(resume_decision(Some(p), &merchant, PAYER, 31), Err(SubscriptionError::PeriodElapsed));
    assert_eq!(resume_decision(Some(p), &payer, PAYER, 30).unwrap().status, Status::Active);
    let c = cancel_decision(Some(p), &merchant, PAYER).unwrap();
    assert_eq!(c.status, Status::Canceled);
    assert_eq!(cancel_decision(None, &merchant, PAYER), Err(SubscriptionError::NotFound));
}
