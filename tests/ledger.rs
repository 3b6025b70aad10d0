use bank_saga::activities::{bank_error_mapping, classify, withdraw_at, DepositArgs, StepError, Verdict, WithdrawArgs};
use bank_saga::activities::deposit_at as deposit_step_at;
use bank_saga::bank::{Account, Bank, BankError};

fn two_accounts(a: u32, b: u32, last_op_at: i64) -> Bank {
    Bank::with_last_op_at(vec![Account { id: 0, balance: a }, Account { id: 1, balance: b }], last_op_at)
}

#[test]
fn deposit_credits_the_account_and_moves_the_clock() {
    let mut bank = two_accounts(320, 380, 0);
    assert_eq!(bank.deposit_at(6_000, 1, 20), Ok(()));
    assert_eq!(bank.balance(1), Some(400));
    assert_eq!(bank.balance(0), Some(320));
    assert_eq!(bank.last_op_at(), 6_000);
}

#[test]
fn withdraw_debits_the_account() {
    let mut bank = two_accounts(320, 380, 0);
    assert_eq!(bank.withdraw_at(5_000, 0, 200), Ok(()));
    assert_eq!(bank.accounts(), &vec![Account { id: 0, balance: 120 }, Account { id: 1, balance: 380 }]);
    assert_eq!(bank.last_op_at(), 5_000);
}

#[test]
fn withdraw_of_whole_balance_leaves_zero() {
    let mut bank = two_accounts(320, 380, 0);
    assert_eq!(bank.withdraw_at(10_000, 0, 320), Ok(()));
    assert_eq!(bank.balance(0), Some(0));
}

#[test]
fn unknown_account_is_invalid() {
    let mut bank = two_accounts(320, 380, 0);
    assert_eq!(bank.deposit_at(10_000, 9, 1), Err(BankError::InvalidAccount));
    assert_eq!(bank.withdraw_at(10_000, 9, 1), Err(BankError::InvalidAccount));
    assert_eq!(bank.balance(9), None);
    assert_eq!(bank.last_op_at(), 0);
}

#[test]
fn overdraft_is_refused_and_leaves_the_ledger() {
    let mut bank = two_accounts(100, 0, 0);
    assert_eq!(bank.withdraw_at(10_000, 0, 200), Err(BankError::NotEnoughMoney));
    assert_eq!(bank.balance(0), Some(100));
    assert_eq!(bank.last_op_at(), 0);
}

#[test]
fn operation_within_cooldown_is_too_soon() {
    let mut bank = two_accounts(320, 380, 10_000);
    assert_eq!(bank.withdraw_at(14_999, 0, 1), Err(BankError::TooSoon));
    assert_eq!(bank.deposit_at(14_999, 0, 1), Err(BankError::TooSoon));
    assert_eq!(bank.balance(0), Some(320));
    assert_eq!(bank.withdraw_at(15_000, 0, 1), Ok(()));
}

#[test]
fn clock_before_last_operation_is_too_soon() {
    let mut bank = two_accounts(320, 380, 10_000);
    assert_eq!(bank.deposit_at(i64::MIN, 0, 1), Err(BankError::TooSoon));
}

#[test]
fn cooldown_is_ledger_wide() {
    let mut bank = two_accounts(320, 380, 0);
    assert_eq!(bank.deposit_at(10_000, 0, 1), Ok(()));
    assert_eq!(bank.deposit_at(12_000, 1, 1), Err(BankError::TooSoon));
}

#[test]
fn duplicate_ids_touch_the_first_account() {
    let mut bank = Bank::with_last_op_at(vec![Account { id: 3, balance: 1 }, Account { id: 3, balance: 7 }], 0);
    assert_eq!(bank.deposit_at(10_000, 3, 2), Ok(()));
    assert_eq!(bank.accounts(), &vec![Account { id: 3, balance: 3 }, Account { id: 3, balance: 7 }]);
}

#[test]
fn new_ledger_reads_the_clock() {
    let mut bank = Bank::new(vec![Account { id: 0, balance: 320 }]);
    assert!(bank.last_op_at() > 1_600_000_000_000);
    assert_eq!(bank.withdraw(0, 10), Err(BankError::TooSoon));
    assert_eq!(bank.deposit(0, 10), Err(BankError::TooSoon));
}

#[test]
fn clock_based_operations_succeed_after_cooldown() {
    let mut bank = two_accounts(320, 380, 0);
    assert_eq!(bank.withdraw(0, 20), Ok(()));
    assert_eq!(bank.balance(0), Some(300));
    assert!(bank.last_op_at() > 1_600_000_000_000);
}

#[test]
fn snapshot_is_an_equal_copy() {
    let bank = two_accounts(320, 380, 42);
    let copy = bank.snapshot();
    assert_eq!(copy.accounts(), bank.accounts());
    assert_eq!(copy.last_op_at(), 42);
}

#[test]
fn classify_each_kind() {
    assert_eq!(classify(BankError::InvalidAccount), Verdict::Terminal);
    assert_eq!(classify(BankError::NotEnoughMoney), Verdict::Terminal);
    assert_eq!(classify(BankError::TooSoon), Verdict::Retryable);
    assert_eq!(classify(BankError::TooSoon), classify(BankError::TooSoon));
}

#[test]
fn error_mapping_marks_terminal_errors() {
    assert_eq!(bank_error_mapping(BankError::InvalidAccount), StepError::NonRetryable(BankError::InvalidAccount));
    assert_eq!(bank_error_mapping(BankError::NotEnoughMoney), StepError::NonRetryable(BankError::NotEnoughMoney));
    assert_eq!(bank_error_mapping(BankError::TooSoon), StepError::Retryable(BankError::TooSoon));
}

#[test]
fn steps_within_cooldown_fail_retryably() {
    let bank = two_accounts(320, 380, 0);
    let bank = withdraw_at(WithdrawArgs { bank, account: 0, amount: 200 }, 10_000).unwrap();
    let r = deposit_step_at(DepositArgs { bank, account: 1, amount: 200 }, 12_000);
    assert_eq!(r.unwrap_err(), StepError::Retryable(BankError::TooSoon));
}

#[test]
fn withdraw_step_overdraft_is_terminal() {
    let bank = two_accounts(100, 0, 0);
    let r = withdraw_at(WithdrawArgs { bank, account: 0, amount: 200 }, 10_000);
    assert_eq!(r.unwrap_err(), StepError::NonRetryable(BankError::NotEnoughMoney));
}

#[test]
fn clock_cannot_refuse_a_ledger_cooled_before_the_epoch() {
    let mut bank = two_accounts(320, 380, -5_000);
    assert_eq!(bank.deposit(1, 20), Ok(()));
    assert_eq!(bank.balance(1), Some(400));
    let bank = two_accounts(320, 380, -5_000);
    let bank = bank_saga::activities::withdraw(WithdrawArgs { bank, account: 0, amount: 200 }).unwrap();
    assert_eq!(bank.balance(0), Some(120));
}

#[test]
fn full_account_within_cooldown_is_too_soon() {
    let mut bank = two_accounts(u32::MAX, 0, 10_000);
    assert_eq!(bank.deposit_at(12_000, 0, 1), Err(BankError::TooSoon));
    assert_eq!(bank.balance(0), Some(u32::MAX));
}
