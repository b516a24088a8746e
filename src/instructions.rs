use vstd::prelude::*;
use crate::accounts::{
    ApplicationAddress, ApplyTask, CreateTask, Initialize, TokenTransfer, UpdateAdmin,
    UpdateTaskSupportCoin, VerifyTaskApplication, Withdraw,
};
use crate::error::TaskTraderError;
use crate::fees::{compute_payout, payout_spec, Payout};
use crate::key::{lemma_view_injective, spec_default_key, Key};
use crate::pda::{pool_authority, pool_authority_of};
use crate::program::{TaskTrader, TraderState};
use crate::state::{Admin, ApplicationState, TaskApplication, TaskInfo, MAX_COINS};

verus! {

/// `s` with the state of the application at `addr` set to `state`.
pub open spec fn with_application_state(s: TraderState, addr: ApplicationAddress, state: ApplicationState) -> TraderState {
    TraderState {
        applications: s.applications.update(
            s.application_index(addr),
            TaskApplication { state, ..s.application(addr) },
        ),
        ..s
    }
}

/// Whether a withdrawal pays a referral reward: an inviter was recorded and
/// the task carries rewards.
pub open spec fn pays_inviter(application: TaskApplication, task: TaskInfo) -> bool {
    application.inviter != spec_default_key() && task.rewards > 0
}

/// The transfers out of the pool that pay `payout`: the fee when it is not
/// zero, then the applicant's amount, then the inviter's amount when it is
/// not zero. The pool authority signs each with `bump`.
pub open spec fn payout_transfers(a: Withdraw, p: Payout, bump: u8) -> Seq<TokenTransfer> {
    let pool = a.pool_coin_account;
    let fee = if p.total_fee > 0 {
        seq![TokenTransfer { from: pool.address, to: a.fee_receiver_coin_account.address, authority: pool.owner, amount: p.total_fee, signer_bump: Some(bump) }]
    } else {
        Seq::empty()
    };
    let applicant = seq![TokenTransfer { from: pool.address, to: a.user_coin_account.address, authority: pool.owner, amount: p.applicant_amount, signer_bump: Some(bump) }];
    let inviter = if p.inviter_amount > 0 {
        seq![TokenTransfer { from: pool.address, to: a.inviter_coin_account->Some_0.address, authority: pool.owner, amount: p.inviter_amount, signer_bump: Some(bump) }]
    } else {
        Seq::empty()
    };
    fee + applicant + inviter
}

/// What `withdraw` does: the checks in the order they are made, then the
/// payout of one taker's share and the move of the application to `Withdrawed`.
pub open spec fn withdraw_step(s: TraderState, a: Withdraw) -> Result<(TraderState, Seq<TokenTransfer>), TaskTraderError> {
    let admin = s.admin->Some_0;
    let application = s.application(a.task_application);
    let task = s.task(a.task_info);
    let pays = pays_inviter(application, task);
    if s.admin is None || !s.has_application(a.task_application) {
        Err(TaskTraderError::AccountNotInitialized)
    } else if application.state != ApplicationState::AcceptedByAcceptance {
        Err(TaskTraderError::InvalidApplicationState)
    } else if application.applicant != a.user {
        Err(TaskTraderError::InvalidApplicant)
    } else if !s.has_task(a.task_info) {
        Err(TaskTraderError::AccountNotInitialized)
    } else if task.task_id != application.task_id {
        Err(TaskTraderError::InvalidTaskId)
    } else if pool_authority_of(s.program_id) is None {
        Err(TaskTraderError::InvalidPoolAccount)
    } else if a.coin_mint != task.coin_mint {
        Err(TaskTraderError::InvalidMint)
    } else if a.user_coin_account.owner != a.user {
        Err(TaskTraderError::InvalidTokenAccount)
    } else if a.user_coin_account.mint != a.coin_mint {
        Err(TaskTraderError::InvalidMint)
    } else if a.pool_coin_account.owner@ != pool_authority_of(s.program_id)->Some_0.0 {
        Err(TaskTraderError::InvalidPoolAccount)
    } else if a.pool_coin_account.mint != a.coin_mint {
        Err(TaskTraderError::InvalidMint)
    } else if a.fee_receiver != admin.fee_receiver || a.fee_receiver_coin_account.owner != a.fee_receiver {
        Err(TaskTraderError::InvalidFeeReceiverAccount)
    } else if a.fee_receiver_coin_account.mint != a.coin_mint {
        Err(TaskTraderError::InvalidMint)
    } else if pays && (a.inviter_coin_account is None || a.inviter_coin_account->Some_0.owner != application.inviter) {
        Err(TaskTraderError::InvalidInviter)
    } else if pays && a.inviter_coin_account->Some_0.mint != a.coin_mint {
        Err(TaskTraderError::InvalidMint)
    } else {
        match payout_spec(task.task_amount, admin.fee_ratio, task.rewards, pays) {
            Err(e) => Err(e),
            Ok(p) => Ok((
                with_application_state(s, a.task_application, ApplicationState::Withdrawed),
                payout_transfers(a, p, pool_authority_of(s.program_id)->Some_0.1),
            )),
        }
    }
}

/// Pays an accepted applicant one taker's share of the task out of the
/// pool: the fee to the fee receiver, the rest of the task amount to the
/// applicant and, when an inviter was recorded, the rewards less their fee
/// to the inviter. Returns the transfers, which the pool authority signs.
pub fn withdraw(program: &mut TaskTrader, accounts: &Withdraw) -> (r: Result<Vec<TokenTransfer>, TaskTraderError>)
    requires
        old(program).wf(),
    ensures
        final(program).wf(),
        match withdraw_step(old(program)@, *accounts) {
            Ok((s, t)) => r is Ok && r->Ok_0@ == t && final(program)@ == s,
            Err(e) => r == Err::<Vec<TokenTransfer>, TaskTraderError>(e) && final(program)@ == old(program)@,
        },
{
    let a = accounts;
    let admin = match program.admin() {
        Some(admin) => admin,
        None => return Err(TaskTraderError::AccountNotInitialized),
    };
    let ai = match program.find_application(&a.task_application) {
        Some(i) => i,
        None => return Err(TaskTraderError::AccountNotInitialized),
    };
    let application = program.application_at(ai);
    if application.state != ApplicationState::AcceptedByAcceptance {
        return Err(TaskTraderError::InvalidApplicationState);
    }
    if !application.applicant.same_as(&a.user) {
        return Err(TaskTraderError::InvalidApplicant);
    }
    let task = match program.task(a.task_info) {
        Some(t) => t,
        None => return Err(TaskTraderError::AccountNotInitialized),
    };
    if task.task_id != application.task_id {
        return Err(TaskTraderError::InvalidTaskId);
    }
    let program_id = program.program_id();
    let (authority, bump) = match pool_authority(&program_id) {
        Some(p) => p,
        None => return Err(TaskTraderError::InvalidPoolAccount),
    };
    if !a.coin_mint.same_as(&task.coin_mint) {
        return Err(TaskTraderError::InvalidMint);
    }
    if !a.user_coin_account.owner.same_as(&a.user) {
        return Err(TaskTraderError::InvalidTokenAccount);
    }
    if !a.user_coin_account.mint.same_as(&a.coin_mint) {
        return Err(TaskTraderError::InvalidMint);
    }
    if !a.pool_coin_account.owner.same_as(&authority) {
        proof {
            lemma_view_injective(a.pool_coin_account.owner, authority);
        }
        return Err(TaskTraderError::InvalidPoolAccount);
    }
    if !a.pool_coin_account.mint.same_as(&a.coin_mint) {
        return Err(TaskTraderError::InvalidMint);
    }
    if !a.fee_receiver.same_as(&admin.fee_receiver) || !a.fee_receiver_coin_account.owner.same_as(&a.fee_receiver) {
        return Err(TaskTraderError::InvalidFeeReceiverAccount);
    }
    if !a.fee_receiver_coin_account.mint.same_as(&a.coin_mint) {
        return Err(TaskTraderError::InvalidMint);
    }
    let pays = !application.inviter.is_default() && task.rewards > 0;
    let mut inviter_address = a.user_coin_account.address;
    if pays {
        match a.inviter_coin_account {
            Some(inviter_account) => {
                if !inviter_account.owner.same_as(&application.inviter) {
                    return Err(TaskTraderError::InvalidInviter);
                }
                if !inviter_account.mint.same_as(&a.coin_mint) {
                    return Err(TaskTraderError::InvalidMint);
                }
                inviter_address = inviter_account.address;
            },
            None => return Err(TaskTraderError::InvalidInviter),
        }
    }
    let payout = match compute_payout(task.task_amount, admin.fee_ratio, task.rewards, pays) {
        Ok(p) => p,
        Err(e) => return Err(e),
    };
    let pool = a.pool_coin_account;
    let mut transfers: Vec<TokenTransfer> = Vec::new();
    if payout.total_fee > 0 {
        transfers.push(TokenTransfer { from: pool.address, to: a.fee_receiver_coin_account.address, authority: pool.owner, amount: payout.total_fee, signer_bump: Some(bump) });
    }
    transfers.push(TokenTransfer { from: pool.address, to: a.user_coin_account.address, authority: pool.owner, amount: payout.applicant_amount, signer_bump: Some(bump) });
    if payout.inviter_amount > 0 {
        transfers.push(TokenTransfer { from: pool.address, to: inviter_address, authority: pool.owner, amount: payout.inviter_amount, signer_bump: Some(bump) });
    }
    program.set_application_state(ai, ApplicationState::Withdrawed);
    assert(transfers@ =~= payout_transfers(*a, payout, bump));
    assert(program@ == with_application_state(old(program)@, a.task_application, ApplicationState::Withdrawed));
    Ok(transfers)
}

/// What `initialize` does: creates the admin record once.
pub open spec fn initialize_step(s: TraderState, signer: Key, fee_receiver: Key, fee_ratio: u64) -> Result<TraderState, TaskTraderError> {
    if s.admin is Some {
        Err(TaskTraderError::AccountAlreadyInitialized)
    } else {
        Ok(TraderState { admin: Some(Admin { signer, fee_receiver, fee_ratio }), ..s })
    }
}

/// Creates the admin record. Fails when it exists already.
pub fn initialize(program: &mut TaskTrader, accounts: &Initialize, signer: Key, fee_receiver: Key, fee_ratio: u64) -> (r: Result<(), TaskTraderError>)
    requires
        old(program).wf(),
    ensures
        final(program).wf(),
        match initialize_step(old(program)@, signer, fee_receiver, fee_ratio) {
            Ok(s) => r is Ok && final(program)@ == s,
            Err(e) => r == Err::<(), TaskTraderError>(e) && final(program)@ == old(program)@,
        },
{
    if program.admin().is_some() {
        return Err(TaskTraderError::AccountAlreadyInitialized);
    }
    program.set_admin(Admin { signer, fee_receiver, fee_ratio });
    Ok(())
}

/// What `update_admin` does: the current admin signer overwrites the record.
pub open spec fn update_admin_step(s: TraderState, a: UpdateAdmin, signer: Key, fee_receiver: Key, fee_ratio: u64) -> Result<TraderState, TaskTraderError> {
    match s.admin {
        None => Err(TaskTraderError::AccountNotInitialized),
        Some(admin) => if admin.signer != a.payer {
            Err(TaskTraderError::Unauthorized)
        } else {
            Ok(TraderState { admin: Some(Admin { signer, fee_receiver, fee_ratio }), ..s })
        },
    }
}

/// Replaces the admin signer, fee receiver and fee ratio; only the current
/// admin signer may.
pub fn update_admin(program: &mut TaskTrader, accounts: &UpdateAdmin, signer: Key, fee_receiver: Key, fee_ratio: u64) -> (r: Result<(), TaskTraderError>)
    requires
        old(program).wf(),
    ensures
        final(program).wf(),
        match update_admin_step(old(program)@, *accounts, signer, fee_receiver, fee_ratio) {
            Ok(s) => r is Ok && final(program)@ == s,
            Err(e) => r == Err::<(), TaskTraderError>(e) && final(program)@ == old(program)@,
        },
{
    let admin = match program.admin() {
        Some(admin) => admin,
        None => return Err(TaskTraderError::AccountNotInitialized),
    };
    if !admin.signer.same_as(&accounts.payer) {
        return Err(TaskTraderError::Unauthorized);
    }
    program.set_admin(Admin { signer, fee_receiver, fee_ratio });
    Ok(())
}

/// What `update_task_support_coin` does: the admin signer replaces the
/// list of supported coins, creating it the first time.
pub open spec fn update_task_support_coin_step(s: TraderState, a: UpdateTaskSupportCoin, coin_mints: Seq<Key>) -> Result<TraderState, TaskTraderError> {
    match s.admin {
        None => Err(TaskTraderError::AccountNotInitialized),
        Some(admin) => if admin.signer != a.payer {
            Err(TaskTraderError::Unauthorized)
        } else if coin_mints.len() > MAX_COINS {
            Err(TaskTraderError::InvalidLength)
        } else {
            Ok(TraderState { coin_mints: Some(coin_mints), ..s })
        },
    }
}

/// Sets the list of coin mints in which tasks may be paid; only the admin
/// signer may, and the list holds at most `MAX_COINS` mints.
pub fn update_task_support_coin(program: &mut TaskTrader, accounts: &UpdateTaskSupportCoin, coin_mints: Vec<Key>) -> (r: Result<(), TaskTraderError>)
    requires
        old(program).wf(),
    ensures
        final(program).wf(),
        match update_task_support_coin_step(old(program)@, *accounts, coin_mints@) {
            Ok(s) => r is Ok && final(program)@ == s,
            Err(e) => r == Err::<(), TaskTraderError>(e) && final(program)@ == old(program)@,
        },
{
    let admin = match program.admin() {
        Some(admin) => admin,
        None => return Err(TaskTraderError::AccountNotInitialized),
    };
    if !admin.signer.same_as(&accounts.payer) {
        return Err(TaskTraderError::Unauthorized);
    }
    if coin_mints.len() > MAX_COINS {
        return Err(TaskTraderError::InvalidLength);
    }
    program.set_coin_mints(coin_mints);
    Ok(())
}

/// Whether `mint` is among `mints`.
fn contains_key(mints: &Vec<Key>, mint: &Key) -> (r: bool)
    ensures
        r == mints@.contains(*mint),
{
    let mut i: usize = 0;
    while i < mints.len()
        invariant
            0 <= i <= mints@.len(),
            forall|j: int| 0 <= j < i ==> mints@[j] != *mint,
        decreases mints@.len() - i,
    {
        if mints[i].same_as(mint) {
            assert(mints@[i as int] == *mint);
            return true;
        }
        i = i + 1;
    }
    false
}

/// What `create_task` escrows: the task amount and the rewards for each taker.
pub open spec fn escrow_amount(task_amount: u64, rewards: u64, taker_num: u64) -> int {
    (task_amount + rewards) * taker_num
}

/// What `create_task` does: the checks in the order they are made, then the
/// new task record and the transfer of the escrow into the pool.
pub open spec fn create_task_step(
    s: TraderState,
    a: CreateTask,
    task_id: u64,
    task_amount: u64,
    taker_num: u64,
    coin_mint: Key,
    rewards: u64,
) -> Result<(TraderState, TokenTransfer), TaskTraderError> {
    if s.coin_mints is None {
        Err(TaskTraderError::AccountNotInitialized)
    } else if s.has_task(task_id) {
        Err(TaskTraderError::AccountAlreadyInitialized)
    } else if pool_authority_of(s.program_id) is None {
        Err(TaskTraderError::InvalidPoolAccount)
    } else if a.user_coin_account.owner != a.user {
        Err(TaskTraderError::InvalidTokenAccount)
    } else if a.user_coin_account.mint != coin_mint {
        Err(TaskTraderError::InvalidMint)
    } else if a.pool_coin_account.owner@ != pool_authority_of(s.program_id)->Some_0.0 {
        Err(TaskTraderError::InvalidPoolAccount)
    } else if a.pool_coin_account.mint != coin_mint {
        Err(TaskTraderError::InvalidMint)
    } else if task_amount == 0 || taker_num == 0 {
        Err(TaskTraderError::InvalidAmount)
    } else if !s.coin_mints->Some_0.contains(coin_mint) {
        Err(TaskTraderError::InvalidCoinMint)
    } else if escrow_amount(task_amount, rewards, taker_num) > u64::MAX {
        Err(TaskTraderError::NumericalOverflow)
    } else {
        let task = TaskInfo { task_id, task_amount, taker_num, coin_mint, rewards, requester: a.user };
        Ok((
            TraderState { tasks: s.tasks.push(task), ..s },
            TokenTransfer {
                from: a.user_coin_account.address,
                to: a.pool_coin_account.address,
                authority: a.user,
                amount: escrow_amount(task_amount, rewards, taker_num) as u64,
                signer_bump: None,
            },
        ))
    }
}

/// Creates the task `task_id` with the caller as requester, and returns the
/// transfer, signed by the requester, that moves the whole escrow
/// `(task_amount + rewards) * taker_num` into the pool.
pub fn create_task(
    program: &mut TaskTrader,
    accounts: &CreateTask,
    task_id: u64,
    task_amount: u64,
    taker_num: u64,
    coin_mint: Key,
    rewards: u64,
) -> (r: Result<TokenTransfer, TaskTraderError>)
    requires
        old(program).wf(),
    ensures
        final(program).wf(),
        match create_task_step(old(program)@, *accounts, task_id, task_amount, taker_num, coin_mint, rewards) {
            Ok((s, t)) => r == Ok::<TokenTransfer, TaskTraderError>(t) && final(program)@ == s,
            Err(e) => r == Err::<TokenTransfer, TaskTraderError>(e) && final(program)@ == old(program)@,
        },
{
    let a = accounts;
    let supported = match program.coin_mints() {
        Some(mints) => contains_key(mints, &coin_mint),
        None => return Err(TaskTraderError::AccountNotInitialized),
    };
    if program.find_task(task_id).is_some() {
        return Err(TaskTraderError::AccountAlreadyInitialized);
    }
    let program_id = program.program_id();
    let authority = match pool_authority(&program_id) {
        Some((authority, _)) => authority,
        None => return Err(TaskTraderError::InvalidPoolAccount),
    };
    if !a.user_coin_account.owner.same_as(&a.user) {
        return Err(TaskTraderError::InvalidTokenAccount);
    }
    if !a.user_coin_account.mint.same_as(&coin_mint) {
        return Err(TaskTraderError::InvalidMint);
    }
    if !a.pool_coin_account.owner.same_as(&authority) {
        proof {
            lemma_view_injective(a.pool_coin_account.owner, authority);
        }
        return Err(TaskTraderError::InvalidPoolAccount);
    }
    if !a.pool_coin_account.mint.same_as(&coin_mint) {
        return Err(TaskTraderError::InvalidMint);
    }
    if task_amount == 0 || taker_num == 0 {
        return Err(TaskTraderError::InvalidAmount);
    }
    if !supported {
        return Err(TaskTraderError::InvalidCoinMint);
    }
    let amount = match task_amount.checked_add(rewards) {
        Some(per_taker) => match per_taker.checked_mul(taker_num) {
            Some(total) => total,
            None => return Err(TaskTraderError::NumericalOverflow),
        },
        None => {
            assert(escrow_amount(task_amount, rewards, taker_num) > u64::MAX) by (nonlinear_arith)
                requires
                    task_amount + rewards > u64::MAX,
                    taker_num >= 1,
            ;
            return Err(TaskTraderError::NumericalOverflow);
        },
    };
    program.push_task(TaskInfo { task_id, task_amount, taker_num, coin_mint, rewards, requester: a.user });
    Ok(TokenTransfer { from: a.user_coin_account.address, to: a.pool_coin_account.address, authority: a.user, amount, signer_bump: None })
}

/// The inviter an application records: the one named, unless it is the
/// applicant itself or nobody was named, in which case the all-zero key.
pub open spec fn recorded_inviter(inviter: Option<Key>, applicant: Key) -> Key {
    match inviter {
        Some(i) => if i != applicant { i } else { spec_default_key() },
        None => spec_default_key(),
    }
}

/// What `apply_task` does: creates the application of `a.applicant` to the
/// task, once.
pub open spec fn apply_task_step(s: TraderState, a: ApplyTask, inviter: Option<Key>) -> Result<TraderState, TaskTraderError> {
    let addr = ApplicationAddress { task_id: a.task_info, applicant: a.applicant };
    if !s.has_task(a.task_info) {
        Err(TaskTraderError::AccountNotInitialized)
    } else if s.has_application(addr) {
        Err(TaskTraderError::AccountAlreadyInitialized)
    } else {
        let application = TaskApplication {
            task_id: a.task_info,
            applicant: a.applicant,
            inviter: recorded_inviter(inviter, a.applicant),
            state: ApplicationState::Applied,
        };
        Ok(TraderState { applications: s.applications.push(application), ..s })
    }
}

/// Records the application of the signer to a task, with the inviter it
/// names unless that is the applicant itself.
pub fn apply_task(program: &mut TaskTrader, accounts: &ApplyTask, inviter: Option<Key>) -> (r: Result<(), TaskTraderError>)
    requires
        old(program).wf(),
    ensures
        final(program).wf(),
        match apply_task_step(old(program)@, *accounts, inviter) {
            Ok(s) => r is Ok && final(program)@ == s,
            Err(e) => r == Err::<(), TaskTraderError>(e) && final(program)@ == old(program)@,
        },
{
    let a = accounts;
    if program.find_task(a.task_info).is_none() {
        return Err(TaskTraderError::AccountNotInitialized);
    }
    let addr = ApplicationAddress { task_id: a.task_info, applicant: a.applicant };
    if program.find_application(&addr).is_some() {
        return Err(TaskTraderError::AccountAlreadyInitialized);
    }
    let recorded = match inviter {
        Some(i) => if !i.same_as(&a.applicant) {
            i
        } else {
            Key::default_key()
        },
        None => Key::default_key(),
    };
    program.push_application(TaskApplication { task_id: a.task_info, applicant: a.applicant, inviter: recorded, state: ApplicationState::Applied });
    Ok(())
}

/// What `verify_task_application` does: the requester accepts or rejects
/// an application that waits for its verdict.
pub open spec fn verify_task_application_step(s: TraderState, a: VerifyTaskApplication, is_accepted: bool) -> Result<TraderState, TaskTraderError> {
    let application = s.application(a.task_application);
    let task = s.task(a.task_info);
    if !s.has_application(a.task_application) || !s.has_task(a.task_info) {
        Err(TaskTraderError::AccountNotInitialized)
    } else if task.requester != a.user {
        Err(TaskTraderError::InvalidRequester)
    } else if task.task_id != application.task_id {
        Err(TaskTraderError::InvalidTaskId)
    } else if application.state != ApplicationState::Applied {
        Err(TaskTraderError::InvalidApplicationState)
    } else if is_accepted {
        Ok(with_application_state(s, a.task_application, ApplicationState::AcceptedByAcceptance))
    } else {
        Ok(with_application_state(s, a.task_application, ApplicationState::RejectedByAcceptance))
    }
}

/// Moves an application that waits for a verdict to accepted or rejected;
/// only the task's requester may, and only once.
pub fn verify_task_application(program: &mut TaskTrader, accounts: &VerifyTaskApplication, is_accepted: bool) -> (r: Result<(), TaskTraderError>)
    requires
        old(program).wf(),
    ensures
        final(program).wf(),
        match verify_task_application_step(old(program)@, *accounts, is_accepted) {
            Ok(s) => r is Ok && final(program)@ == s,
            Err(e) => r == Err::<(), TaskTraderError>(e) && final(program)@ == old(program)@,
        },
{
    let a = accounts;
    let ai = match program.find_application(&a.task_application) {
        Some(i) => i,
        None => return Err(TaskTraderError::AccountNotInitialized),
    };
    let task = match program.task(a.task_info) {
        Some(t) => t,
        None => return Err(TaskTraderError::AccountNotInitialized),
    };
    let application = program.application_at(ai);
    if !task.requester.same_as(&a.user) {
        return Err(TaskTraderError::InvalidRequester);
    }
    if task.task_id != application.task_id {
        return Err(TaskTraderError::InvalidTaskId);
    }
    if application.state != ApplicationState::Applied {
        return Err(TaskTraderError::InvalidApplicationState);
    }
    let state = if is_accepted {
        ApplicationState::AcceptedByAcceptance
    } else {
        ApplicationState::RejectedByAcceptance
    };
    program.set_application_state(ai, state);
    Ok(())
}

} // verus!
