use vstd::prelude::*;
use crate::error::TaskTraderError;

verus! {

/// Fee ratios are expressed in thousandths.
pub const FEE_DENOMINATOR: u64 = 1000;

/// How one taker's share of a task is split on withdrawal.
#[derive(Clone, Copy, Debug, PartialEq, Eq, Structural)]
pub struct Payout {
    /// Paid to the fee receiver: the task fee plus the reward fee.
    pub total_fee: u64,
    /// Paid to the applicant: the task amount less the task fee.
    pub applicant_amount: u64,
    /// Paid to the inviter: the rewards less the reward fee.
    pub inviter_amount: u64,
}

/// `floor(task_amount * fee_ratio / 1000)`.
pub open spec fn task_fee(task_amount: u64, fee_ratio: u64) -> int {
    (task_amount * fee_ratio) as int / FEE_DENOMINATOR as int
}

/// The part of the rewards kept as fee: a thousandth (rounded down) when an
/// inviter is paid, all of it when nobody is.
pub open spec fn reward_fee(rewards: u64, pays_inviter: bool) -> int {
    if pays_inviter {
        rewards as int / FEE_DENOMINATOR as int
    } else {
        rewards as int
    }
}

/// The split of one taker's share, or `NumericalOverflow` when the product
/// `task_amount * fee_ratio` or the total fee does not fit in 64 bits, or the
/// task fee exceeds the task amount (a fee ratio above 1000).
pub open spec fn payout_spec(task_amount: u64, fee_ratio: u64, rewards: u64, pays_inviter: bool)
    -> Result<Payout, TaskTraderError>
{
    if task_amount * fee_ratio > u64::MAX {
        Err(TaskTraderError::NumericalOverflow)
    } else if task_fee(task_amount, fee_ratio) > task_amount {
        Err(TaskTraderError::NumericalOverflow)
    } else if task_fee(task_amount, fee_ratio) + reward_fee(rewards, pays_inviter) > u64::MAX {
        Err(TaskTraderError::NumericalOverflow)
    } else {
        Ok(
            Payout {
                total_fee: (task_fee(task_amount, fee_ratio) + reward_fee(rewards, pays_inviter)) as u64,
                applicant_amount: (task_amount - task_fee(task_amount, fee_ratio)) as u64,
                inviter_amount: (rewards - reward_fee(rewards, pays_inviter)) as u64,
            },
        )
    }
}

/// Splits one taker's share of a task between the fee receiver, the
/// applicant and, when `pays_inviter`, the inviter.
pub fn compute_payout(task_amount: u64, fee_ratio: u64, rewards: u64, pays_inviter: bool) -> (r:
    Result<Payout, TaskTraderError>)
    ensures
        r == payout_spec(task_amount, fee_ratio, rewards, pays_inviter),
{
    let product = match task_amount.checked_mul(fee_ratio) {
        Some(p) => p,
        None => return Err(TaskTraderError::NumericalOverflow),
    };
    let task_fee = product / FEE_DENOMINATOR;
    let applicant_amount = match task_amount.checked_sub(task_fee) {
        Some(a) => a,
        None => return Err(TaskTraderError::NumericalOverflow),
    };
    let reward_fee = if pays_inviter {
        rewards / FEE_DENOMINATOR
    } else {
        rewards
    };
    let total_fee = match task_fee.checked_add(reward_fee) {
        Some(f) => f,
        None => return Err(TaskTraderError::NumericalOverflow),
    };
    Ok(Payout { total_fee, applicant_amount, inviter_amount: rewards - reward_fee })
}

/// Nothing is created or lost on withdrawal: the fee, the applicant's amount
/// and the inviter's amount add up to the task amount plus the rewards.
pub proof fn lemma_payout_conserves(task_amount: u64, fee_ratio: u64, rewards: u64, pays_inviter: bool)
    requires
        payout_spec(task_amount, fee_ratio, rewards, pays_inviter) is Ok,
    ensures
        ({
            let p = payout_spec(task_amount, fee_ratio, rewards, pays_inviter)->Ok_0;
            p.total_fee + p.applicant_amount + p.inviter_amount == task_amount + rewards
        }),
{
}

} // verus!
