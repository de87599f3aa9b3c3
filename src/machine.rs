//! The agreement's lifecycle: what each operation requires of the agreement
//! and what it leaves behind.
use vstd::prelude::*;
use crate::state::{Address, IsaError, IsaState, IsaStatus};

verus! {

/// An operation on an agreement, with the values it brings.
#[derive(Clone, Copy, Debug)]
pub enum Action {
    /// An investor adds this amount to the funding.
    Invest(u64),
    /// The escrow, holding this balance, is paid out to the university.
    Release(u64),
    /// The oracle reports this salary.
    UpdateSalary(u64),
    /// The student pays the installment now due.
    PayShare,
    /// This much was handed out to the investors.
    Distribute(u64),
    /// The university reports that the student dropped out.
    ReportDropout,
    /// The oracle reports that the student fell behind.
    ReportDelinquency,
}

/// The installment before the cap: `floor(last_salary * percent / 100)`.
pub open spec fn raw_due(s: IsaState) -> int {
    (s.last_salary * s.percent) / 100
}

/// The installment due: the raw installment, cut down to what is left
/// under the cap (never below zero).
pub open spec fn payment_due(s: IsaState) -> int {
    if s.already_paid + raw_due(s) > s.max_cap {
        if s.max_cap >= s.already_paid {
            s.max_cap - s.already_paid
        } else {
            0
        }
    } else {
        raw_due(s)
    }
}

/// The agreement after paying `due`: back to `Working` from `Delinquent`,
/// and `Completed` once the cap is reached.
pub open spec fn after_payment(s: IsaState, due: int) -> IsaState {
    let paid = (s.already_paid + due) as u64;
    IsaState {
        already_paid: paid,
        status: if paid >= s.max_cap {
            IsaStatus::Completed
        } else if s.status == IsaStatus::Delinquent {
            IsaStatus::Working
        } else {
            s.status
        },
        ..s
    }
}

/// What `a` does to the agreement `s`: the agreement after it, or the
/// error it fails with, in which case nothing changes.
pub open spec fn step(s: IsaState, a: Action) -> Result<IsaState, IsaError> {
    match a {
        Action::Invest(amount) => {
            if s.status != IsaStatus::Learning {
                Err(IsaError::InvalidStatus)
            } else if amount == 0 {
                Err(IsaError::InvalidAmount)
            } else if s.total_invested + amount > u64::MAX {
                Err(IsaError::MathOverflow)
            } else if s.total_invested + amount > s.course_cost {
                Err(IsaError::FundingExceedsCourseCost)
            } else {
                Ok(IsaState { total_invested: (s.total_invested + amount) as u64, ..s })
            }
        },
        Action::Release(balance) => {
            if s.status != IsaStatus::Learning {
                Err(IsaError::InvalidStatus)
            } else if balance == 0 {
                Err(IsaError::NoFunds)
            } else {
                Ok(IsaState { status: IsaStatus::StudyingPaid, ..s })
            }
        },
        Action::UpdateSalary(salary) => Ok(
            IsaState {
                last_salary: salary,
                status: if salary == 0 {
                    IsaStatus::Unemployed
                } else {
                    IsaStatus::Working
                },
                ..s
            },
        ),
        Action::PayShare => {
            if s.status != IsaStatus::Working && s.status != IsaStatus::Delinquent {
                Err(IsaError::InvalidStatus)
            } else if s.last_salary == 0 {
                Err(IsaError::NoSalary)
            } else if s.last_salary * s.percent > u64::MAX {
                Err(IsaError::MathOverflow)
            } else if s.already_paid + raw_due(s) > u64::MAX {
                Err(IsaError::MathOverflow)
            } else if payment_due(s) == 0 {
                Err(IsaError::NothingToPay)
            } else {
                Ok(after_payment(s, payment_due(s)))
            }
        },
        Action::Distribute(total) => {
            if s.total_distributed + total > u64::MAX {
                Err(IsaError::MathOverflow)
            } else {
                Ok(IsaState { total_distributed: (s.total_distributed + total) as u64, ..s })
            }
        },
        Action::ReportDropout => {
            if s.status == IsaStatus::Completed || s.status == IsaStatus::DroppedOut {
                Err(IsaError::InvalidStatus)
            } else {
                Ok(IsaState { percent: 0, max_cap: 0, status: IsaStatus::DroppedOut, ..s })
            }
        },
        Action::ReportDelinquency => {
            if s.status != IsaStatus::Working && s.status != IsaStatus::Unemployed {
                Err(IsaError::InvalidStatusForDelinquency)
            } else if s.last_salary == 0 {
                Err(IsaError::NoSalaryToReportDelinquency)
            } else {
                Ok(IsaState { status: IsaStatus::Delinquent, ..s })
            }
        },
    }
}

impl IsaState {
    /// A new agreement in `Learning` with every total at zero; the rate
    /// must lie in 1..=100.
    pub fn open_agreement(
        owner: Address,
        token_mint: Address,
        vault: Address,
        course_cost: u64,
        percent: u8,
        max_cap: u64,
        bump: u8,
    ) -> (r: Result<IsaState, IsaError>)
        ensures
            !(0 < percent <= 100) ==> r == Err::<IsaState, IsaError>(IsaError::InvalidPercent),
            0 < percent <= 100 ==> r == Ok::<IsaState, IsaError>(
                IsaState {
                    owner,
                    token_mint,
                    vault,
                    course_cost,
                    percent,
                    max_cap,
                    total_invested: 0,
                    already_paid: 0,
                    total_distributed: 0,
                    last_salary: 0,
                    status: IsaStatus::Learning,
                    bump,
                },
            ),
            r matches Ok(s) ==> s.wf(),
    {
        if !(percent > 0 && percent <= 100) {
            return Err(IsaError::InvalidPercent);
        }
        Ok(
            IsaState {
                owner,
                token_mint,
                vault,
                course_cost,
                percent,
                max_cap,
                total_invested: 0,
                already_paid: 0,
                total_distributed: 0,
                last_salary: 0,
                status: IsaStatus::Learning,
                bump,
            },
        )
    }

    /// Records an investment of `amount` during funding.
    pub fn record_investment(&self, amount: u64) -> (r: Result<IsaState, IsaError>)
        ensures
            r == step(*self, Action::Invest(amount)),
    {
        if self.status != IsaStatus::Learning {
            return Err(IsaError::InvalidStatus);
        }
        if amount == 0 {
            return Err(IsaError::InvalidAmount);
        }
        let total = match self.total_invested.checked_add(amount) {
            Some(t) => t,
            None => {
                return Err(IsaError::MathOverflow);
            },
        };
        if total > self.course_cost {
            return Err(IsaError::FundingExceedsCourseCost);
        }
        Ok(IsaState { total_invested: total, ..*self })
    }

    /// Records that the escrow, holding `balance`, went to the university.
    pub fn record_release(&self, balance: u64) -> (r: Result<IsaState, IsaError>)
        ensures
            r == step(*self, Action::Release(balance)),
    {
        if self.status != IsaStatus::Learning {
            return Err(IsaError::InvalidStatus);
        }
        if balance == 0 {
            return Err(IsaError::NoFunds);
        }
        Ok(IsaState { status: IsaStatus::StudyingPaid, ..*self })
    }

    /// Records a reported salary; zero means the student is unemployed.
    pub fn record_salary(&self, salary: u64) -> (r: IsaState)
        ensures
            Ok::<IsaState, IsaError>(r) == step(*self, Action::UpdateSalary(salary)),
    {
        let status = if salary == 0 {
            IsaStatus::Unemployed
        } else {
            IsaStatus::Working
        };
        IsaState { last_salary: salary, status, ..*self }
    }

    /// The installment due now, as `payment_due` states it, or why none is.
    pub fn due_now(&self) -> (r: Result<u64, IsaError>)
        ensures
            step(*self, Action::PayShare) matches Err(e) ==> r == Err::<u64, IsaError>(e),
            step(*self, Action::PayShare) is Ok ==> r == Ok::<u64, IsaError>(
                payment_due(*self) as u64,
            ),
            r matches Ok(d) ==> d == payment_due(*self) && d > 0,
    {
        if self.status != IsaStatus::Working && self.status != IsaStatus::Delinquent {
            return Err(IsaError::InvalidStatus);
        }
        if self.last_salary == 0 {
            return Err(IsaError::NoSalary);
        }
        let scaled = match self.last_salary.checked_mul(self.percent as u64) {
            Some(v) => v,
            None => {
                return Err(IsaError::MathOverflow);
            },
        };
        let mut due: u64 = scaled / 100;
        let reached = match self.already_paid.checked_add(due) {
            Some(v) => v,
            None => {
                return Err(IsaError::MathOverflow);
            },
        };
        if reached > self.max_cap {
            due = self.max_cap.saturating_sub(self.already_paid);
        }
        if due == 0 {
            return Err(IsaError::NothingToPay);
        }
        Ok(due)
    }

    /// Records payment of the installment due; returns the agreement after
    /// it and the amount paid.
    pub fn record_payment(&self) -> (r: Result<(IsaState, u64), IsaError>)
        ensures
            step(*self, Action::PayShare) matches Err(e) ==> r == Err::<(IsaState, u64), IsaError>(e),
            step(*self, Action::PayShare) matches Ok(n) ==> r == Ok::<(IsaState, u64), IsaError>(
                (n, payment_due(*self) as u64),
            ),
    {
        let due = match self.due_now() {
            Ok(d) => d,
            Err(e) => {
                return Err(e);
            },
        };
        let paid = self.already_paid + due;
        let status = if paid >= self.max_cap {
            IsaStatus::Completed
        } else if self.status == IsaStatus::Delinquent {
            IsaStatus::Working
        } else {
            self.status
        };
        Ok((IsaState { already_paid: paid, status, ..*self }, due))
    }

    /// Adds a distributed total to the running count.
    pub fn record_distribution(&self, total: u64) -> (r: Result<IsaState, IsaError>)
        ensures
            r == step(*self, Action::Distribute(total)),
    {
        match self.total_distributed.checked_add(total) {
            Some(t) => Ok(IsaState { total_distributed: t, ..*self }),
            None => Err(IsaError::MathOverflow),
        }
    }

    /// Ends the agreement on a dropout: nothing more is owed.
    pub fn record_dropout(&self) -> (r: Result<IsaState, IsaError>)
        ensures
            r == step(*self, Action::ReportDropout),
    {
        if self.status == IsaStatus::Completed || self.status == IsaStatus::DroppedOut {
            return Err(IsaError::InvalidStatus);
        }
        Ok(IsaState { percent: 0, max_cap: 0, status: IsaStatus::DroppedOut, ..*self })
    }

    /// Marks the student as behind on payments.
    pub fn record_delinquency(&self) -> (r: Result<IsaState, IsaError>)
        ensures
            r == step(*self, Action::ReportDelinquency),
    {
        if self.status != IsaStatus::Working && self.status != IsaStatus::Unemployed {
            return Err(IsaError::InvalidStatusForDelinquency);
        }
        if self.last_salary == 0 {
            return Err(IsaError::NoSalaryToReportDelinquency);
        }
        Ok(IsaState { status: IsaStatus::Delinquent, ..*self })
    }
}

} // verus!
