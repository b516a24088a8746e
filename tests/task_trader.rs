use anchor_lang::prelude::Pubkey;
use task_trader::accounts::{
    ApplicationAddress, ApplyTask, CreateTask, Initialize, TokenAccount, TokenTransfer,
    UpdateAdmin, UpdateTaskSupportCoin, VerifyTaskApplication, Withdraw,
};
use task_trader::error::TaskTraderError;
use task_trader::fees::{compute_payout, Payout};
use task_trader::instructions::{
    apply_task, create_task, initialize, update_admin, update_task_support_coin,
    verify_task_application, withdraw,
};
use task_trader::key::Key;
use task_trader::pda::pool_authority;
use task_trader::program::TaskTrader;
use task_trader::state::{Admin, ApplicationState, TaskInfo};

fn key(b: u8) -> Key {
    Key::new([b; 32])
}

fn program_id() -> Key {
    key(200)
}

fn admin_key() -> Key {
    key(1)
}

fn fee_receiver() -> Key {
    key(2)
}

fn requester() -> Key {
    key(3)
}

fn applicant() -> Key {
    key(4)
}

fn inviter() -> Key {
    key(5)
}

fn mint_x() -> Key {
    key(100)
}

fn authority() -> (Key, u8) {
    pool_authority(&program_id()).unwrap()
}

fn account(address: u8, owner: Key, mint: Key) -> TokenAccount {
    TokenAccount { address: key(address), owner, mint }
}

fn pool_account() -> TokenAccount {
    account(50, authority().0, mint_x())
}

fn setup(fee_ratio: u64) -> TaskTrader {
    let mut p = TaskTrader::new(program_id());
    initialize(&mut p, &Initialize { payer: admin_key() }, admin_key(), fee_receiver(), fee_ratio).unwrap();
    update_task_support_coin(&mut p, &UpdateTaskSupportCoin { payer: admin_key() }, vec![mint_x()]).unwrap();
    p
}

fn create_accounts() -> CreateTask {
    CreateTask {
        user: requester(),
        user_coin_account: account(10, requester(), mint_x()),
        pool_coin_account: pool_account(),
    }
}

fn app_address(task_id: u64, who: Key) -> ApplicationAddress {
    ApplicationAddress { task_id, applicant: who }
}

fn accept(p: &mut TaskTrader, task_id: u64, who: Key) {
    verify_task_application(
        p,
        &VerifyTaskApplication { user: requester(), task_application: app_address(task_id, who), task_info: task_id },
        true,
    )
    .unwrap();
}

fn withdraw_accounts(task_id: u64, who: Key, inviter_account: Option<TokenAccount>) -> Withdraw {
    Withdraw {
        user: who,
        task_application: app_address(task_id, who),
        task_info: task_id,
        coin_mint: mint_x(),
        user_coin_account: account(20, who, mint_x()),
        inviter_coin_account: inviter_account,
        pool_coin_account: pool_account(),
        fee_receiver: fee_receiver(),
        fee_receiver_coin_account: account(30, fee_receiver(), mint_x()),
    }
}

fn pool_transfer(to: u8, amount: u64) -> TokenTransfer {
    TokenTransfer { from: key(50), to: key(to), authority: authority().0, amount, signer_bump: Some(authority().1) }
}

fn moved(transfers: &[TokenTransfer]) -> u64 {
    transfers.iter().map(|t| t.amount).sum()
}

#[test]
fn example_scenario_one_percent_fee_without_inviter() {
    let mut p = setup(10);
    let escrow = create_task(&mut p, &create_accounts(), 1, 1000, 2, mint_x(), 100).unwrap();
    assert_eq!(
        escrow,
        TokenTransfer { from: key(10), to: key(50), authority: requester(), amount: 2200, signer_bump: None }
    );
    apply_task(&mut p, &ApplyTask { task_info: 1, applicant: applicant() }, None).unwrap();
    accept(&mut p, 1, applicant());
    let out = withdraw(&mut p, &withdraw_accounts(1, applicant(), None)).unwrap();
    assert_eq!(out, vec![pool_transfer(30, 110), pool_transfer(20, 990)]);
    assert_eq!(moved(&out), 1100);
    assert_eq!(p.application(&app_address(1, applicant())).unwrap().state, ApplicationState::Withdrawed);
    assert_eq!(p.task(1).unwrap().taker_num, 2);
}

#[test]
fn create_task_twice_fails_and_keeps_first_record() {
    let mut p = setup(10);
    create_task(&mut p, &create_accounts(), 7, 500, 1, mint_x(), 0).unwrap();
    let first = p.task(7).unwrap();
    let again = create_task(&mut p, &create_accounts(), 7, 900, 3, mint_x(), 5);
    assert_eq!(again, Err(TaskTraderError::AccountAlreadyInitialized));
    assert_eq!(p.task(7).unwrap(), first);
    assert_eq!(
        first,
        TaskInfo { task_id: 7, task_amount: 500, taker_num: 1, coin_mint: mint_x(), rewards: 0, requester: requester() }
    );
}

#[test]
fn apply_task_twice_fails() {
    let mut p = setup(10);
    create_task(&mut p, &create_accounts(), 1, 1000, 2, mint_x(), 100).unwrap();
    let a = ApplyTask { task_info: 1, applicant: applicant() };
    assert_eq!(apply_task(&mut p, &a, None), Ok(()));
    assert_eq!(apply_task(&mut p, &a, Some(inviter())), Err(TaskTraderError::AccountAlreadyInitialized));
    assert_eq!(p.application(&app_address(1, applicant())).unwrap().inviter, Key::default_key());
}

#[test]
fn withdraw_twice_fails_with_invalid_application_state() {
    let mut p = setup(10);
    create_task(&mut p, &create_accounts(), 1, 1000, 2, mint_x(), 100).unwrap();
    apply_task(&mut p, &ApplyTask { task_info: 1, applicant: applicant() }, None).unwrap();
    accept(&mut p, 1, applicant());
    assert!(withdraw(&mut p, &withdraw_accounts(1, applicant(), None)).is_ok());
    assert_eq!(
        withdraw(&mut p, &withdraw_accounts(1, applicant(), None)),
        Err(TaskTraderError::InvalidApplicationState)
    );
}

#[test]
fn withdraw_with_inviter_conserves_share() {
    let mut p = setup(10);
    create_task(&mut p, &create_accounts(), 1, 1000, 2, mint_x(), 2500).unwrap();
    apply_task(&mut p, &ApplyTask { task_info: 1, applicant: applicant() }, Some(inviter())).unwrap();
    assert_eq!(p.application(&app_address(1, applicant())).unwrap().inviter, inviter());
    accept(&mut p, 1, applicant());
    let inviter_account = account(40, inviter(), mint_x());
    let out = withdraw(&mut p, &withdraw_accounts(1, applicant(), Some(inviter_account))).unwrap();
    // task fee 10, reward fee floor(2500 / 1000) = 2
    assert_eq!(out, vec![pool_transfer(30, 12), pool_transfer(20, 990), pool_transfer(40, 2498)]);
    assert_eq!(moved(&out), 1000 + 2500);
}

#[test]
fn payout_conserves_for_sample_values() {
    for &(amount, ratio, rewards) in &[(1u64, 0u64, 0u64), (999, 1000, 1), (123456, 7, 999), (1000, 1, 1001)] {
        for &pays in &[true, false] {
            let p = compute_payout(amount, ratio, rewards, pays).unwrap();
            assert_eq!(p.total_fee + p.applicant_amount + p.inviter_amount, amount + rewards);
        }
    }
}

#[test]
fn self_referral_records_no_inviter() {
    let mut p = setup(10);
    create_task(&mut p, &create_accounts(), 1, 1000, 2, mint_x(), 100).unwrap();
    apply_task(&mut p, &ApplyTask { task_info: 1, applicant: applicant() }, Some(applicant())).unwrap();
    let stored = p.application(&app_address(1, applicant())).unwrap();
    assert_eq!(stored.inviter, Key::default_key());
    assert_ne!(stored.inviter, applicant());
    assert_eq!(stored.state, ApplicationState::Applied);
}

#[test]
fn unsupported_coin_is_rejected() {
    let mut p = setup(10);
    let other = key(101);
    let accounts = CreateTask {
        user: requester(),
        user_coin_account: account(10, requester(), other),
        pool_coin_account: account(50, authority().0, other),
    };
    assert_eq!(create_task(&mut p, &accounts, 1, 1000, 2, other, 100), Err(TaskTraderError::InvalidCoinMint));
    assert_eq!(p.task(1), None);
}

#[test]
fn task_fee_formula_values() {
    assert_eq!(
        compute_payout(1000, 10, 100, false),
        Ok(Payout { total_fee: 110, applicant_amount: 990, inviter_amount: 0 })
    );
    assert_eq!(
        compute_payout(1999, 3, 1999, true),
        Ok(Payout { total_fee: 5 + 1, applicant_amount: 1994, inviter_amount: 1998 })
    );
    assert_eq!(
        compute_payout(10, 1000, 0, true),
        Ok(Payout { total_fee: 10, applicant_amount: 0, inviter_amount: 0 })
    );
}

#[test]
fn payout_overflow_cases() {
    assert_eq!(compute_payout(u64::MAX, 2, 0, false), Err(TaskTraderError::NumericalOverflow));
    assert_eq!(compute_payout(1000, 1001, 0, false), Err(TaskTraderError::NumericalOverflow));
    assert_eq!(compute_payout(1000, 1000, u64::MAX, false), Err(TaskTraderError::NumericalOverflow));
}

#[test]
fn fee_ratio_above_denominator_fails_withdraw() {
    let mut p = setup(1001);
    create_task(&mut p, &create_accounts(), 1, 1000, 1, mint_x(), 0).unwrap();
    apply_task(&mut p, &ApplyTask { task_info: 1, applicant: applicant() }, None).unwrap();
    accept(&mut p, 1, applicant());
    assert_eq!(withdraw(&mut p, &withdraw_accounts(1, applicant(), None)), Err(TaskTraderError::NumericalOverflow));
    assert_eq!(p.application(&app_address(1, applicant())).unwrap().state, ApplicationState::AcceptedByAcceptance);
}

#[test]
fn pool_authority_matches_program_derived_address() {
    let id = Pubkey::new_from_array(program_id().bytes);
    let (expected, bump) = Pubkey::find_program_address(&[b"pool_authority"], &id);
    let (derived, derived_bump) = authority();
    assert_eq!(derived.bytes, expected.to_bytes());
    assert_eq!(derived_bump, bump);
    assert_ne!(derived, program_id());
}

#[test]
fn initialize_once() {
    let mut p = setup(10);
    assert_eq!(
        initialize(&mut p, &Initialize { payer: key(9) }, key(9), key(9), 5),
        Err(TaskTraderError::AccountAlreadyInitialized)
    );
    assert_eq!(p.admin(), Some(Admin { signer: admin_key(), fee_receiver: fee_receiver(), fee_ratio: 10 }));
}

#[test]
fn update_admin_by_signer_only() {
    let mut p = setup(10);
    assert_eq!(
        update_admin(&mut p, &UpdateAdmin { payer: key(9) }, key(9), key(9), 5),
        Err(TaskTraderError::Unauthorized)
    );
    assert_eq!(update_admin(&mut p, &UpdateAdmin { payer: admin_key() }, key(9), key(8), 5), Ok(()));
    assert_eq!(p.admin(), Some(Admin { signer: key(9), fee_receiver: key(8), fee_ratio: 5 }));
}

#[test]
fn update_admin_without_record_fails() {
    let mut p = TaskTrader::new(program_id());
    assert_eq!(
        update_admin(&mut p, &UpdateAdmin { payer: admin_key() }, key(9), key(9), 5),
        Err(TaskTraderError::AccountNotInitialized)
    );
}

#[test]
fn support_coin_list_capacity() {
    let mut p = setup(10);
    let ten: Vec<Key> = (0..10u8).map(key).collect();
    let eleven: Vec<Key> = (0..11u8).map(key).collect();
    let payer = UpdateTaskSupportCoin { payer: admin_key() };
    assert_eq!(update_task_support_coin(&mut p, &payer, ten.clone()), Ok(()));
    assert_eq!(update_task_support_coin(&mut p, &payer, eleven), Err(TaskTraderError::InvalidLength));
    assert_eq!(p.coin_mints(), Some(&ten));
    assert_eq!(
        update_task_support_coin(&mut p, &UpdateTaskSupportCoin { payer: key(9) }, vec![]),
        Err(TaskTraderError::Unauthorized)
    );
}

#[test]
fn create_task_errors() {
    let mut bare = TaskTrader::new(program_id());
    assert_eq!(
        create_task(&mut bare, &create_accounts(), 1, 1, 1, mint_x(), 0),
        Err(TaskTraderError::AccountNotInitialized)
    );
    let mut p = setup(10);
    assert_eq!(create_task(&mut p, &create_accounts(), 1, 0, 1, mint_x(), 0), Err(TaskTraderError::InvalidAmount));
    assert_eq!(create_task(&mut p, &create_accounts(), 1, 1, 0, mint_x(), 0), Err(TaskTraderError::InvalidAmount));
    assert_eq!(
        create_task(&mut p, &create_accounts(), 1, u64::MAX, 2, mint_x(), 0),
        Err(TaskTraderError::NumericalOverflow)
    );
    assert_eq!(
        create_task(&mut p, &create_accounts(), 1, u64::MAX, 1, mint_x(), 1),
        Err(TaskTraderError::NumericalOverflow)
    );
    let mut wrong_user = create_accounts();
    wrong_user.user_coin_account.owner = key(9);
    assert_eq!(create_task(&mut p, &wrong_user, 1, 1, 1, mint_x(), 0), Err(TaskTraderError::InvalidTokenAccount));
    let mut wrong_pool = create_accounts();
    wrong_pool.pool_coin_account.owner = key(9);
    assert_eq!(create_task(&mut p, &wrong_pool, 1, 1, 1, mint_x(), 0), Err(TaskTraderError::InvalidPoolAccount));
    let mut wrong_mint = create_accounts();
    wrong_mint.pool_coin_account.mint = key(9);
    assert_eq!(create_task(&mut p, &wrong_mint, 1, 1, 1, mint_x(), 0), Err(TaskTraderError::InvalidMint));
    assert_eq!(p.task(1), None);
}

#[test]
fn apply_task_to_missing_task_fails() {
    let mut p = setup(10);
    assert_eq!(
        apply_task(&mut p, &ApplyTask { task_info: 3, applicant: applicant() }, None),
        Err(TaskTraderError::AccountNotInitialized)
    );
}

#[test]
fn verify_task_application_errors_and_one_shot() {
    let mut p = setup(10);
    create_task(&mut p, &create_accounts(), 1, 1000, 2, mint_x(), 100).unwrap();
    create_task(&mut p, &create_accounts(), 2, 1000, 2, mint_x(), 100).unwrap();
    apply_task(&mut p, &ApplyTask { task_info: 1, applicant: applicant() }, None).unwrap();
    let addr = app_address(1, applicant());
    let by = |user: Key, task_info: u64| VerifyTaskApplication { user, task_application: addr, task_info };
    assert_eq!(verify_task_application(&mut p, &by(key(9), 1), true), Err(TaskTraderError::InvalidRequester));
    assert_eq!(verify_task_application(&mut p, &by(requester(), 2), true), Err(TaskTraderError::InvalidTaskId));
    assert_eq!(
        verify_task_application(&mut p, &by(requester(), 5), true),
        Err(TaskTraderError::AccountNotInitialized)
    );
    assert_eq!(verify_task_application(&mut p, &by(requester(), 1), false), Ok(()));
    assert_eq!(p.application(&addr).unwrap().state, ApplicationState::RejectedByAcceptance);
    assert_eq!(
        verify_task_application(&mut p, &by(requester(), 1), true),
        Err(TaskTraderError::InvalidApplicationState)
    );
}

#[test]
fn rejected_application_cannot_withdraw() {
    let mut p = setup(10);
    create_task(&mut p, &create_accounts(), 1, 1000, 2, mint_x(), 100).unwrap();
    apply_task(&mut p, &ApplyTask { task_info: 1, applicant: applicant() }, None).unwrap();
    assert_eq!(
        withdraw(&mut p, &withdraw_accounts(1, applicant(), None)),
        Err(TaskTraderError::InvalidApplicationState)
    );
}

fn accepted(rewards: u64, with_inviter: bool) -> TaskTrader {
    let mut p = setup(10);
    create_task(&mut p, &create_accounts(), 1, 1000, 2, mint_x(), rewards).unwrap();
    create_task(&mut p, &create_accounts(), 2, 1000, 2, mint_x(), rewards).unwrap();
    let named = if with_inviter { Some(inviter()) } else { None };
    apply_task(&mut p, &ApplyTask { task_info: 1, applicant: applicant() }, named).unwrap();
    accept(&mut p, 1, applicant());
    p
}

#[test]
fn withdraw_account_errors() {
    let mut p = accepted(100, false);
    let good = withdraw_accounts(1, applicant(), None);
    let mut a = good;
    a.user = key(9);
    assert_eq!(withdraw(&mut p, &a), Err(TaskTraderError::InvalidApplicant));
    let mut a = good;
    a.task_info = 2;
    assert_eq!(withdraw(&mut p, &a), Err(TaskTraderError::InvalidTaskId));
    let mut a = good;
    a.task_info = 9;
    assert_eq!(withdraw(&mut p, &a), Err(TaskTraderError::AccountNotInitialized));
    let mut a = good;
    a.coin_mint = key(9);
    assert_eq!(withdraw(&mut p, &a), Err(TaskTraderError::InvalidMint));
    let mut a = good;
    a.user_coin_account.owner = key(9);
    assert_eq!(withdraw(&mut p, &a), Err(TaskTraderError::InvalidTokenAccount));
    let mut a = good;
    a.pool_coin_account.owner = key(9);
    assert_eq!(withdraw(&mut p, &a), Err(TaskTraderError::InvalidPoolAccount));
    let mut a = good;
    a.fee_receiver = key(9);
    assert_eq!(withdraw(&mut p, &a), Err(TaskTraderError::InvalidFeeReceiverAccount));
    let mut a = good;
    a.fee_receiver_coin_account.owner = key(9);
    assert_eq!(withdraw(&mut p, &a), Err(TaskTraderError::InvalidFeeReceiverAccount));
    let mut a = good;
    a.fee_receiver_coin_account.mint = key(9);
    assert_eq!(withdraw(&mut p, &a), Err(TaskTraderError::InvalidMint));
    assert_eq!(p.application(&app_address(1, applicant())).unwrap().state, ApplicationState::AcceptedByAcceptance);
    assert!(withdraw(&mut p, &good).is_ok());
}

#[test]
fn withdraw_inviter_errors() {
    let mut p = accepted(100, true);
    assert_eq!(withdraw(&mut p, &withdraw_accounts(1, applicant(), None)), Err(TaskTraderError::InvalidInviter));
    let stranger = account(40, key(9), mint_x());
    assert_eq!(
        withdraw(&mut p, &withdraw_accounts(1, applicant(), Some(stranger))),
        Err(TaskTraderError::InvalidInviter)
    );
    let wrong_mint = account(40, inviter(), key(9));
    assert_eq!(
        withdraw(&mut p, &withdraw_accounts(1, applicant(), Some(wrong_mint))),
        Err(TaskTraderError::InvalidMint)
    );
}

#[test]
fn inviter_without_rewards_needs_no_account() {
    let mut p = accepted(0, true);
    let out = withdraw(&mut p, &withdraw_accounts(1, applicant(), None)).unwrap();
    assert_eq!(out, vec![pool_transfer(30, 10), pool_transfer(20, 990)]);
}

#[test]
fn zero_fee_skips_fee_transfer() {
    let mut p = setup(0);
    create_task(&mut p, &create_accounts(), 1, 1000, 1, mint_x(), 0).unwrap();
    apply_task(&mut p, &ApplyTask { task_info: 1, applicant: applicant() }, None).unwrap();
    accept(&mut p, 1, applicant());
    let out = withdraw(&mut p, &withdraw_accounts(1, applicant(), None)).unwrap();
    assert_eq!(out, vec![pool_transfer(20, 1000)]);
}

#[test]
fn withdraw_without_admin_fails() {
    let mut p = TaskTrader::new(program_id());
    assert_eq!(
        withdraw(&mut p, &withdraw_accounts(1, applicant(), None)),
        Err(TaskTraderError::AccountNotInitialized)
    );
}
