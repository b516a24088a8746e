use vstd::prelude::*;
use crate::key::Key;

verus! {

/// What an instruction reads of a token account: its address, the identity
/// that may move its funds, and the mint of the coin it holds.
#[derive(Clone, Copy, Debug, PartialEq, Eq)]
pub struct TokenAccount {
    pub address: Key,
    pub owner: Key,
    pub mint: Key,
}

/// A token transfer that an instruction requires of the token program.
/// `signer_bump` is `Some(bump)` when the pool authority signs with its
/// seed and that bump, and `None` when `authority` signs itself.
#[derive(Clone, Copy, Debug, PartialEq, Eq)]
pub struct TokenTransfer {
    pub from: Key,
    pub to: Key,
    pub authority: Key,
    pub amount: u64,
    pub signer_bump: Option<u8>,
}

/// The sum of the amounts that `transfers` move.
pub open spec fn total_moved(transfers: Seq<TokenTransfer>) -> int
    decreases transfers.len(),
{
    if transfers.len() == 0 {
        0
    } else {
        total_moved(transfers.drop_last()) + transfers.last().amount
    }
}

/// The address of an application, derived from its task and its applicant.
#[derive(Clone, Copy, Debug, PartialEq, Eq)]
pub struct ApplicationAddress {
    pub task_id: u64,
    pub applicant: Key,
}

/// Accounts of `initialize`.
#[derive(Clone, Copy, Debug, PartialEq, Eq)]
pub struct Initialize {
    pub payer: Key,
}

/// Accounts of `update_admin`.
#[derive(Clone, Copy, Debug, PartialEq, Eq)]
pub struct UpdateAdmin {
    pub payer: Key,
}

/// Accounts of `update_task_support_coin`.
#[derive(Clone, Copy, Debug, PartialEq, Eq)]
pub struct UpdateTaskSupportCoin {
    pub payer: Key,
}

/// Accounts of `create_task`: the requester and the token accounts that
/// the escrowed funds move between.
#[derive(Clone, Copy, Debug, PartialEq, Eq)]
pub struct CreateTask {
    pub user: Key,
    pub user_coin_account: TokenAccount,
    pub pool_coin_account: TokenAccount,
}

/// Accounts of `apply_task`: the task applied to and the applicant.
#[derive(Clone, Copy, Debug, PartialEq, Eq)]
pub struct ApplyTask {
    pub task_info: u64,
    pub applicant: Key,
}

/// Accounts of `verify_task_application`.
#[derive(Clone, Copy, Debug, PartialEq, Eq)]
pub struct VerifyTaskApplication {
    pub user: Key,
    pub task_application: ApplicationAddress,
    pub task_info: u64,
}

/// Accounts of `withdraw`.
#[derive(Clone, Copy, Debug, PartialEq, Eq)]
pub struct Withdraw {
    pub user: Key,
    pub task_application: ApplicationAddress,
    pub task_info: u64,
    pub coin_mint: Key,
    pub user_coin_account: TokenAccount,
    pub inviter_coin_account: Option<TokenAccount>,
    pub pool_coin_account: TokenAccount,
    pub fee_receiver: Key,
    pub fee_receiver_coin_account: TokenAccount,
}

} // verus!
