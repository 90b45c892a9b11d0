use vstd::prelude::*;

verus! {

/// Lifecycle status of a subscription. `Canceled` is terminal.
#[derive(Clone, Copy, Debug, PartialEq, Eq, Structural)]
pub enum Status {
    Active,
    Paused,
    Canceled,
}

/// Why an operation on a subscription was refused. Every refusal leaves the
/// stored state untouched.
#[derive(Clone, Copy, Debug, PartialEq, Eq, Structural)]
pub enum SubscriptionError {
    /// No record is stored under the key.
    NotFound,
    /// A record is already stored under the key.
    AlreadyExists,
    /// The authorization policy is not satisfied.
    Unauthorized,
    /// The operation needs a status that the record does not have.
    NotActive,
    /// A charge came before the end of the paid period.
    PeriodNotElapsed,
    /// A resume came after the end of the paid period.
    PeriodElapsed,
    /// The transfer of funds failed.
    TransferFailed,
    /// The amount or the period duration is not positive.
    InvalidArgument,
    /// The next period end would not fit in a timestamp.
    TimestampOverflow,
}

/// One recurring payment from `customer` (the payer) to `merchant` (the
/// beneficiary), in units of the asset `token`.
#[derive(Clone, Copy, Debug, PartialEq, Eq, Structural)]
pub struct Subscription {
    pub customer: u64,
    pub merchant: u64,
    pub token: u64,
    pub amount: i128,
    pub period_duration: u64,
    pub period_end: u64,
    pub status: Status,
}

/// The record that a subscription starts with at time `now`.
pub open spec fn opened(
    customer: u64,
    merchant: u64,
    token: u64,
    amount: i128,
    duration: u64,
    now: u64,
) -> Subscription {
    Subscription {
        customer,
        merchant,
        token,
        amount,
        period_duration: duration,
        period_end: (now + duration) as u64,
        status: Status::Active,
    }
}

/// Outcome of opening a subscription at time `now`.
pub open spec fn spec_open(
    customer: u64,
    merchant: u64,
    token: u64,
    amount: i128,
    duration: u64,
    now: u64,
) -> Result<Subscription, SubscriptionError> {
    if amount <= 0 || duration == 0 {
        Err(SubscriptionError::InvalidArgument)
    } else if now + duration > u64::MAX {
        Err(SubscriptionError::TimestampOverflow)
    } else {
        Ok(opened(customer, merchant, token, amount, duration, now))
    }
}

impl Subscription {
    /// The record invariant: a positive amount and a positive period.
    pub open spec fn wf(self) -> bool {
        self.amount > 0 && self.period_duration > 0
    }

    /// The same record with another status.
    pub open spec fn with_status(self, status: Status) -> Subscription {
        Subscription { status, ..self }
    }

    /// The record once one more period has been paid for.
    pub open spec fn advanced(self) -> Subscription {
        Subscription { period_end: (self.period_end + self.period_duration) as u64, ..self }
    }

    /// Outcome of a charge at time `now`, before the transfer is made.
    pub open spec fn spec_charge(self, now: u64) -> Result<Subscription, SubscriptionError> {
        if self.status != Status::Active {
            Err(SubscriptionError::NotActive)
        } else if now < self.period_end {
            Err(SubscriptionError::PeriodNotElapsed)
        } else if self.period_end + self.period_duration > u64::MAX {
            Err(SubscriptionError::TimestampOverflow)
        } else {
            Ok(self.advanced())
        }
    }

    /// Outcome of a pause.
    pub open spec fn spec_pause(self) -> Result<Subscription, SubscriptionError> {
        if self.status == Status::Canceled {
            Err(SubscriptionError::NotActive)
        } else {
            Ok(self.with_status(Status::Paused))
        }
    }

    /// Outcome of a resume at time `now`.
    pub open spec fn spec_resume(self, now: u64) -> Result<Subscription, SubscriptionError> {
        if now > self.period_end {
            Err(SubscriptionError::PeriodElapsed)
        } else if self.status == Status::Canceled {
            Err(SubscriptionError::NotActive)
        } else {
            Ok(self.with_status(Status::Active))
        }
    }

    /// Opens a subscription at time `now`: the first period is paid for by the
    /// transfer that goes with the opening and ends at `now + duration`.
    pub fn open(
        customer: u64,
        merchant: u64,
        token: u64,
        amount: i128,
        duration: u64,
        now: u64,
    ) -> (r: Result<Subscription, SubscriptionError>)
        ensures
            r == spec_open(customer, merchant, token, amount, duration, now),
            r is Ok ==> r->Ok_0.wf(),
    {
        if amount <= 0 || duration == 0 {
            return Err(SubscriptionError::InvalidArgument);
        }
        if duration > u64::MAX - now {
            return Err(SubscriptionError::TimestampOverflow);
        }
        Ok(
            Subscription {
                customer,
                merchant,
                token,
                amount,
                period_duration: duration,
                period_end: now + duration,
                status: Status::Active,
            },
        )
    }

    /// Checks a charge at time `now` and returns the record to store once the
    /// transfer of `amount` has succeeded: the period end moves forward by
    /// exactly one period, whatever `now` is.
    pub fn charge_step(&self, now: u64) -> (r: Result<Subscription, SubscriptionError>)
        ensures
            r == self.spec_charge(now),
            self.wf() && r is Ok ==> r->Ok_0.wf(),
    {
        if self.status != Status::Active {
            return Err(SubscriptionError::NotActive);
        }
        if now < self.period_end {
            return Err(SubscriptionError::PeriodNotElapsed);
        }
        if self.period_duration > u64::MAX - self.period_end {
            return Err(SubscriptionError::TimestampOverflow);
        }
        Ok(Subscription { period_end: self.period_end + self.period_duration, ..*self })
    }

    /// Returns the paused record; a canceled record stays canceled.
    pub fn pause_step(&self) -> (r: Result<Subscription, SubscriptionError>)
        ensures
            r == self.spec_pause(),
    {
        if self.status == Status::Canceled {
            return Err(SubscriptionError::NotActive);
        }
        Ok(Subscription { status: Status::Paused, ..*self })
    }

    /// Returns the active record, provided that the paid period has not
    /// lapsed at `now`; a canceled record stays canceled.
    pub fn resume_step(&self, now: u64) -> (r: Result<Subscription, SubscriptionError>)
        ensures
            r == self.spec_resume(now),
    {
        if now > self.period_end {
            return Err(SubscriptionError::PeriodElapsed);
        }
        if self.status == Status::Canceled {
            return Err(SubscriptionError::NotActive);
        }
        Ok(Subscription { status: Status::Active, ..*self })
    }

    /// Returns the canceled record.
    pub fn cancel_step(&self) -> (r: Subscription)
        ensures
            r == self.with_status(Status::Canceled),
    {
        Subscription { status: Status::Canceled, ..*self }
    }
}

} // verus!
