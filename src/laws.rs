use vstd::prelude::*;
use crate::accounts::{
    total_moved, ApplicationAddress, ApplyTask, CreateTask, TokenTransfer, UpdateAdmin,
    UpdateTaskSupportCoin, VerifyTaskApplication, Withdraw,
};
use crate::error::TaskTraderError;
use crate::fees::{lemma_payout_conserves, payout_spec};
use crate::instructions::{
    apply_task_step, create_task_step, escrow_amount, initialize_step, payout_transfers, pays_inviter,
    update_admin_step, update_task_support_coin_step, verify_task_application_step,
    with_application_state, withdraw_step,
};
use crate::key::{spec_default_key, Key};
use crate::pda::pool_authority_of;
use crate::program::{at_address, TraderState};
use crate::state::{ApplicationState, TaskApplication, TaskInfo};

verus! {

/// After a task with a new id is appended, that id names the new task.
proof fn lemma_pushed_task(s: TraderState, task: TaskInfo)
    requires
        s.wf(),
        !s.has_task(task.task_id),
    ensures
        ({
            let s1 = TraderState { tasks: s.tasks.push(task), ..s };
            s1.has_task(task.task_id) && s1.task(task.task_id) == task
        }),
{
    let s1 = TraderState { tasks: s.tasks.push(task), ..s };
    assert(s1.tasks[s.tasks.len() as int].task_id == task.task_id);
    let k = s1.task_index(task.task_id);
    if k < s.tasks.len() {
        assert(s.tasks[k].task_id == task.task_id);
    }
}

/// After an application with a new address is appended, that address names
/// the new application.
proof fn lemma_pushed_application(s: TraderState, application: TaskApplication)
    requires
        s.wf(),
        !s.has_application(ApplicationAddress { task_id: application.task_id, applicant: application.applicant }),
    ensures
        ({
            let s1 = TraderState { applications: s.applications.push(application), ..s };
            let addr = ApplicationAddress { task_id: application.task_id, applicant: application.applicant };
            s1.has_application(addr) && s1.application(addr) == application
        }),
{
    let s1 = TraderState { applications: s.applications.push(application), ..s };
    let addr = ApplicationAddress { task_id: application.task_id, applicant: application.applicant };
    assert(at_address(s1.applications[s.applications.len() as int], addr));
    let k = s1.application_index(addr);
    if k < s.applications.len() {
        assert(at_address(s.applications[k], addr));
    }
}

/// Setting the state of an existing application keeps it at its address,
/// with the new state.
proof fn lemma_updated_application(s: TraderState, addr: ApplicationAddress, state: ApplicationState)
    requires
        s.wf(),
        s.has_application(addr),
    ensures
        ({
            let s1 = with_application_state(s, addr, state);
            &&& s1.admin == s.admin
            &&& s1.tasks == s.tasks
            &&& s1.has_application(addr)
            &&& s1.application(addr) == TaskApplication { state, ..s.application(addr) }
        }),
{
    let s1 = with_application_state(s, addr, state);
    let i = s.application_index(addr);
    assert(at_address(s1.applications[i], addr));
    let k = s1.application_index(addr);
    if k != i {
        let ai = s.applications[i];
        let ak = s.applications[k];
        assert(at_address(ak, addr));
        if k < i {
            assert(!at_address(ak, ApplicationAddress { task_id: ai.task_id, applicant: ai.applicant }));
        } else {
            assert(!at_address(ai, ApplicationAddress { task_id: ak.task_id, applicant: ak.applicant }));
        }
    }
}

/// A task id is taken once: after `create_task` succeeds, the id names the
/// new record, and any second `create_task` with that id fails with
/// `AccountAlreadyInitialized`, whatever its other arguments.
pub proof fn lemma_create_task_once(
    s: TraderState,
    a: CreateTask,
    task_id: u64,
    task_amount: u64,
    taker_num: u64,
    coin_mint: Key,
    rewards: u64,
    again: CreateTask,
    task_amount2: u64,
    taker_num2: u64,
    coin_mint2: Key,
    rewards2: u64,
)
    requires
        s.wf(),
        create_task_step(s, a, task_id, task_amount, taker_num, coin_mint, rewards) is Ok,
    ensures
        ({
            let s1 = create_task_step(s, a, task_id, task_amount, taker_num, coin_mint, rewards)->Ok_0.0;
            &&& s1.has_task(task_id)
            &&& s1.task(task_id) == (TaskInfo { task_id, task_amount, taker_num, coin_mint, rewards, requester: a.user })
            &&& create_task_step(s1, again, task_id, task_amount2, taker_num2, coin_mint2, rewards2)
                == Err::<(TraderState, TokenTransfer), TaskTraderError>(TaskTraderError::AccountAlreadyInitialized)
        }),
{
    lemma_pushed_task(s, TaskInfo { task_id, task_amount, taker_num, coin_mint, rewards, requester: a.user });
}

/// An applicant applies to a task once: after `apply_task` succeeds, a
/// second `apply_task` by the same applicant to the same task fails with
/// `AccountAlreadyInitialized`, whatever inviter it names.
pub proof fn lemma_apply_task_once(s: TraderState, a: ApplyTask, inviter: Option<Key>, inviter2: Option<Key>)
    requires
        s.wf(),
        apply_task_step(s, a, inviter) is Ok,
    ensures
        apply_task_step(apply_task_step(s, a, inviter)->Ok_0, a, inviter2)
            == Err::<TraderState, TaskTraderError>(TaskTraderError::AccountAlreadyInitialized),
{
    let application = TaskApplication {
        task_id: a.task_info,
        applicant: a.applicant,
        inviter: crate::instructions::recorded_inviter(inviter, a.applicant),
        state: ApplicationState::Applied,
    };
    lemma_pushed_application(s, application);
    let s1 = apply_task_step(s, a, inviter)->Ok_0;
    let k = s.task_index(a.task_info);
    assert(s1.tasks[k].task_id == a.task_info);
}

/// An applicant never records itself as its inviter: applying with oneself
/// as inviter stores the all-zero key.
pub proof fn lemma_no_self_referral(s: TraderState, a: ApplyTask)
    requires
        s.wf(),
        apply_task_step(s, a, Some(a.applicant)) is Ok,
    ensures
        ({
            let s1 = apply_task_step(s, a, Some(a.applicant))->Ok_0;
            let addr = ApplicationAddress { task_id: a.task_info, applicant: a.applicant };
            s1.has_application(addr) && s1.application(addr).inviter == spec_default_key()
        }),
{
    let application = TaskApplication {
        task_id: a.task_info,
        applicant: a.applicant,
        inviter: spec_default_key(),
        state: ApplicationState::Applied,
    };
    lemma_pushed_application(s, application);
}

/// A share is paid once: after `withdraw` succeeds, a second `withdraw` of
/// the same application fails with `InvalidApplicationState`, whatever
/// accounts it names.
pub proof fn lemma_withdraw_once(s: TraderState, a: Withdraw, again: Withdraw)
    requires
        s.wf(),
        withdraw_step(s, a) is Ok,
        again.task_application == a.task_application,
    ensures
        withdraw_step(withdraw_step(s, a)->Ok_0.0, again)
            == Err::<(TraderState, Seq<TokenTransfer>), TaskTraderError>(TaskTraderError::InvalidApplicationState),
{
    lemma_updated_application(s, a.task_application, ApplicationState::Withdrawed);
}

/// `create_task` escrows exactly one share per taker: the amount moved into
/// the pool is the stored task's `taker_num` times its task amount plus rewards.
pub proof fn lemma_create_task_escrow(
    s: TraderState,
    a: CreateTask,
    task_id: u64,
    task_amount: u64,
    taker_num: u64,
    coin_mint: Key,
    rewards: u64,
)
    requires
        s.wf(),
        create_task_step(s, a, task_id, task_amount, taker_num, coin_mint, rewards) is Ok,
    ensures
        ({
            let (s1, escrow) = create_task_step(s, a, task_id, task_amount, taker_num, coin_mint, rewards)->Ok_0;
            let task = s1.task(task_id);
            &&& escrow.to == a.pool_coin_account.address
            &&& escrow.amount == task.taker_num * (task.task_amount + task.rewards)
        }),
{
    lemma_pushed_task(s, TaskInfo { task_id, task_amount, taker_num, coin_mint, rewards, requester: a.user });
    assert(escrow_amount(task_amount, rewards, taker_num) == taker_num * (task_amount + rewards)) by (nonlinear_arith);
}

/// Nothing is created or lost by a withdrawal: the transfers out of the pool
/// add up to exactly one taker's share of the escrow, the task amount plus
/// the rewards.
pub proof fn lemma_withdraw_conserves(s: TraderState, a: Withdraw)
    requires
        withdraw_step(s, a) is Ok,
    ensures
        total_moved(withdraw_step(s, a)->Ok_0.1) == s.task(a.task_info).task_amount + s.task(a.task_info).rewards,
{
    let task = s.task(a.task_info);
    let pays = pays_inviter(s.application(a.task_application), task);
    let fee_ratio = s.admin->Some_0.fee_ratio;
    lemma_payout_conserves(task.task_amount, fee_ratio, task.rewards, pays);
    let p = payout_spec(task.task_amount, fee_ratio, task.rewards, pays)->Ok_0;
    let t = payout_transfers(a, p, pool_authority_of(s.program_id)->Some_0.1);
    let pool = a.pool_coin_account;
    let bump = pool_authority_of(s.program_id)->Some_0.1;
    let fee = if p.total_fee > 0 {
        seq![TokenTransfer { from: pool.address, to: a.fee_receiver_coin_account.address, authority: pool.owner, amount: p.total_fee, signer_bump: Some(bump) }]
    } else {
        Seq::empty()
    };
    let applicant = TokenTransfer { from: pool.address, to: a.user_coin_account.address, authority: pool.owner, amount: p.applicant_amount, signer_bump: Some(bump) };
    assert(total_moved(Seq::<TokenTransfer>::empty()) == 0);
    if p.total_fee > 0 {
        lemma_total_moved_push(Seq::empty(), fee[0]);
        assert(Seq::<TokenTransfer>::empty().push(fee[0]) =~= fee);
    }
    assert(total_moved(fee) == p.total_fee);
    lemma_total_moved_push(fee, applicant);
    let fa = fee.push(applicant);
    if p.inviter_amount > 0 {
        let inviter = TokenTransfer { from: pool.address, to: a.inviter_coin_account->Some_0.address, authority: pool.owner, amount: p.inviter_amount, signer_bump: Some(bump) };
        lemma_total_moved_push(fa, inviter);
        assert(t =~= fa.push(inviter));
    } else {
        assert(t =~= fa);
    }
}

/// Appending a transfer adds its amount to the total moved.
proof fn lemma_total_moved_push(transfers: Seq<TokenTransfer>, t: TokenTransfer)
    ensures
        total_moved(transfers.push(t)) == total_moved(transfers) + t.amount,
{
    assert(transfers.push(t).drop_last() =~= transfers);
}

/// A task in a coin that is not supported is never created: `create_task`
/// fails, and once the records and accounts it checks first are in order,
/// it fails with `InvalidCoinMint`.
pub proof fn lemma_unsupported_coin(
    s: TraderState,
    a: CreateTask,
    task_id: u64,
    task_amount: u64,
    taker_num: u64,
    coin_mint: Key,
    rewards: u64,
)
    requires
        s.coin_mints is Some,
        !s.coin_mints->Some_0.contains(coin_mint),
    ensures
        create_task_step(s, a, task_id, task_amount, taker_num, coin_mint, rewards) is Err,
        ({
            &&& !s.has_task(task_id)
            &&& pool_authority_of(s.program_id) is Some
            &&& a.user_coin_account.owner == a.user
            &&& a.user_coin_account.mint == coin_mint
            &&& a.pool_coin_account.owner@ == pool_authority_of(s.program_id)->Some_0.0
            &&& a.pool_coin_account.mint == coin_mint
            &&& task_amount > 0
            &&& taker_num > 0
        }) ==> create_task_step(s, a, task_id, task_amount, taker_num, coin_mint, rewards)
            == Err::<(TraderState, TokenTransfer), TaskTraderError>(TaskTraderError::InvalidCoinMint),
{
}

/// A task that exists in `o` exists in any state that keeps `o`'s tasks
/// as a prefix.
proof fn lemma_task_kept(o: TraderState, s: TraderState, task_id: u64)
    requires
        o.has_task(task_id),
        o.tasks.len() <= s.tasks.len(),
        forall|i: int| 0 <= i < o.tasks.len() ==> s.tasks[i] == o.tasks[i],
    ensures
        s.has_task(task_id),
{
    let k = o.task_index(task_id);
    assert(s.tasks[k].task_id == task_id);
}

/// Changing an application's state keeps every application tied to an
/// existing task.
proof fn lemma_state_change_keeps_tasks(s: TraderState, addr: ApplicationAddress, state: ApplicationState)
    requires
        s.applications_have_tasks(),
        s.has_application(addr),
    ensures
        with_application_state(s, addr, state).applications_have_tasks(),
{
    let s1 = with_application_state(s, addr, state);
    assert forall|i: int| 0 <= i < s1.applications.len() implies s1.has_task(#[trigger] s1.applications[i].task_id) by {
        assert(s1.applications[i].task_id == s.applications[i].task_id);
        lemma_task_kept(s, s1, s.applications[i].task_id);
    }
}

/// The configuration instructions touch neither tasks nor applications, so
/// every application stays tied to an existing task.
pub proof fn lemma_configuration_keeps_tasks(
    s: TraderState,
    signer: Key,
    fee_receiver: Key,
    fee_ratio: u64,
    admin_accounts: UpdateAdmin,
    coin_accounts: UpdateTaskSupportCoin,
    coin_mints: Seq<Key>,
)
    requires
        s.applications_have_tasks(),
    ensures
        initialize_step(s, signer, fee_receiver, fee_ratio) matches Ok(s1) ==> s1.applications_have_tasks(),
        update_admin_step(s, admin_accounts, signer, fee_receiver, fee_ratio) matches Ok(s1) ==> s1.applications_have_tasks(),
        update_task_support_coin_step(s, coin_accounts, coin_mints) matches Ok(s1) ==> s1.applications_have_tasks(),
{
    assert forall|s1: TraderState| s1.tasks == s.tasks && s1.applications == s.applications implies s1.applications_have_tasks() by {
        assert forall|i: int| 0 <= i < s1.applications.len() implies s1.has_task(#[trigger] s1.applications[i].task_id) by {
            lemma_task_kept(s, s1, s.applications[i].task_id);
        }
    }
}

/// Creating a task keeps every application tied to an existing task.
pub proof fn lemma_create_task_keeps_tasks(
    s: TraderState,
    a: CreateTask,
    task_id: u64,
    task_amount: u64,
    taker_num: u64,
    coin_mint: Key,
    rewards: u64,
)
    requires
        s.applications_have_tasks(),
        create_task_step(s, a, task_id, task_amount, taker_num, coin_mint, rewards) is Ok,
    ensures
        create_task_step(s, a, task_id, task_amount, taker_num, coin_mint, rewards)->Ok_0.0.applications_have_tasks(),
{
    let s1 = create_task_step(s, a, task_id, task_amount, taker_num, coin_mint, rewards)->Ok_0.0;
    assert forall|i: int| 0 <= i < s1.applications.len() implies s1.has_task(#[trigger] s1.applications[i].task_id) by {
        lemma_task_kept(s, s1, s.applications[i].task_id);
    }
}

/// An application is only recorded for an existing task.
pub proof fn lemma_apply_task_keeps_tasks(s: TraderState, a: ApplyTask, inviter: Option<Key>)
    requires
        s.applications_have_tasks(),
        apply_task_step(s, a, inviter) is Ok,
    ensures
        apply_task_step(s, a, inviter)->Ok_0.applications_have_tasks(),
{
    let s1 = apply_task_step(s, a, inviter)->Ok_0;
    assert forall|i: int| 0 <= i < s1.applications.len() implies s1.has_task(#[trigger] s1.applications[i].task_id) by {
        if i < s.applications.len() {
            lemma_task_kept(s, s1, s.applications[i].task_id);
        } else {
            lemma_task_kept(s, s1, a.task_info);
        }
    }
}

/// Accepting or rejecting an application keeps every application tied to
/// an existing task.
pub proof fn lemma_verify_keeps_tasks(s: TraderState, a: VerifyTaskApplication, is_accepted: bool)
    requires
        s.applications_have_tasks(),
        verify_task_application_step(s, a, is_accepted) is Ok,
    ensures
        verify_task_application_step(s, a, is_accepted)->Ok_0.applications_have_tasks(),
{
    lemma_state_change_keeps_tasks(s, a.task_application, ApplicationState::AcceptedByAcceptance);
    lemma_state_change_keeps_tasks(s, a.task_application, ApplicationState::RejectedByAcceptance);
}

/// A withdrawal keeps every application tied to an existing task.
pub proof fn lemma_withdraw_keeps_tasks(s: TraderState, a: Withdraw)
    requires
        s.applications_have_tasks(),
        withdraw_step(s, a) is Ok,
    ensures
        withdraw_step(s, a)->Ok_0.0.applications_have_tasks(),
{
    lemma_state_change_keeps_tasks(s, a.task_application, ApplicationState::Withdrawed);
}

} // verus!
