//! The step executor: each step runs one ledger operation on the snapshot it
//! is handed, and a failure is classified for the runtime's retry policy.
use vstd::prelude::*;

use crate::bank::{cooling_down, deposit_fits, deposit_result, settles, withdraw_result, Bank, BankError, LedgerView};

verus! {

/// Whether the runtime may run a failed step again.
#[derive(Clone, Copy, Debug, PartialEq, Eq, Structural)]
pub enum Verdict {
    Retryable,
    Terminal,
}

/// A failed step, as signalled to the runtime.
#[derive(Clone, Copy, Debug, PartialEq, Eq, Structural)]
pub enum StepError {
    Retryable(BankError),
    NonRetryable(BankError),
}

#[derive(Debug)]
pub struct WithdrawArgs {
    pub bank: Bank,
    pub account: u32,
    pub amount: u32,
}

#[derive(Debug)]
pub struct DepositArgs {
    pub bank: Bank,
    pub account: u32,
    pub amount: u32,
}

#[derive(Debug)]
pub struct RefundArgs {
    pub bank: Bank,
    pub account: u32,
    pub amount: u32,
}

pub open spec fn verdict_of(kind: BankError) -> Verdict {
    match kind {
        BankError::InvalidAccount => Verdict::Terminal,
        BankError::NotEnoughMoney => Verdict::Terminal,
        BankError::TooSoon => Verdict::Retryable,
    }
}

pub open spec fn step_error_of(kind: BankError) -> StepError {
    match verdict_of(kind) {
        Verdict::Retryable => StepError::Retryable(kind),
        Verdict::Terminal => StepError::NonRetryable(kind),
    }
}

/// What a step returns, given what the ledger operation gives.
pub open spec fn step_result(expected: Result<LedgerView, BankError>) -> Result<LedgerView, StepError> {
    match expected {
        Ok(v) => Ok(v),
        Err(e) => Err(step_error_of(e)),
    }
}

/// The step returned `r`, where the ledger operation gives `expected`.
pub open spec fn step_matches(r: Result<Bank, StepError>, expected: Result<LedgerView, BankError>) -> bool {
    match r {
        Ok(b) => step_result(expected) == Ok::<LedgerView, StepError>(b@),
        Err(e) => step_result(expected) == Err::<LedgerView, StepError>(e),
    }
}

/// Only a cooldown clears by itself; a wrong account or a short balance does not.
pub fn classify(kind: BankError) -> (r: Verdict)
    ensures
        r == verdict_of(kind),
{
    match kind {
        BankError::InvalidAccount | BankError::NotEnoughMoney => Verdict::Terminal,
        BankError::TooSoon => Verdict::Retryable,
    }
}

/// The ledger error as the runtime is to see it.
pub fn bank_error_mapping(bank_error: BankError) -> (r: StepError)
    ensures
        r == step_error_of(bank_error),
{
    match classify(bank_error) {
        Verdict::Terminal => StepError::NonRetryable(bank_error),
        Verdict::Retryable => StepError::Retryable(bank_error),
    }
}

fn finish(bank: Bank, r: Result<(), BankError>) -> (out: Result<Bank, StepError>)
    ensures
        match r {
            Ok(_) => out == Ok::<Bank, StepError>(bank),
            Err(e) => out == Err::<Bank, StepError>(step_error_of(e)),
        },
{
    match r {
        Ok(()) => Ok(bank),
        Err(e) => Err(bank_error_mapping(e)),
    }
}

/// The withdraw step at time `now`.
pub fn withdraw_at(args: WithdrawArgs, now: i64) -> (r: Result<Bank, StepError>)
    ensures
        step_matches(r, withdraw_result(args.bank@, now as int, args.account, args.amount)),
{
    let WithdrawArgs { mut bank, account, amount } = args;
    let res = bank.withdraw_at(now, account, amount);
    finish(bank, res)
}

/// The deposit step at time `now`.
pub fn deposit_at(args: DepositArgs, now: i64) -> (r: Result<Bank, StepError>)
    requires
        !cooling_down(args.bank@.last_op_at, now as int) ==> deposit_fits(args.bank@, args.account, args.amount),
    ensures
        step_matches(r, deposit_result(args.bank@, now as int, args.account, args.amount)),
{
    let DepositArgs { mut bank, account, amount } = args;
    let res = bank.deposit_at(now, account, amount);
    finish(bank, res)
}

/// The refund step at time `now`: a deposit back into the source account.
pub fn refund_at(args: RefundArgs, now: i64) -> (r: Result<Bank, StepError>)
    requires
        !cooling_down(args.bank@.last_op_at, now as int) ==> deposit_fits(args.bank@, args.account, args.amount),
    ensures
        step_matches(r, deposit_result(args.bank@, now as int, args.account, args.amount)),
{
    let RefundArgs { mut bank, account, amount } = args;
    let res = bank.deposit_at(now, account, amount);
    finish(bank, res)
}

/// The withdraw step at the current time.
pub fn withdraw(args: WithdrawArgs) -> (r: Result<Bank, StepError>)
    ensures
        exists|t: int| t >= 0 && step_matches(r, #[trigger] withdraw_result(args.bank@, t, args.account, args.amount)),
{
    let ghost l = args.bank@;
    let WithdrawArgs { mut bank, account, amount } = args;
    let res = bank.withdraw(account, amount);
    let r = finish(bank, res);
    proof {
        let t = choose|t: int| t >= 0 && settles(l, bank@, res, #[trigger] withdraw_result(l, t, account, amount));
        assert(step_matches(r, withdraw_result(l, t, account, amount)));
    }
    r
}

/// The deposit step at the current time.
pub fn deposit(args: DepositArgs) -> (r: Result<Bank, StepError>)
    requires
        deposit_fits(args.bank@, args.account, args.amount),
    ensures
        exists|t: int| t >= 0 && step_matches(r, #[trigger] deposit_result(args.bank@, t, args.account, args.amount)),
{
    let ghost l = args.bank@;
    let DepositArgs { mut bank, account, amount } = args;
    let res = bank.deposit(account, amount);
    let r = finish(bank, res);
    proof {
        let t = choose|t: int| t >= 0 && settles(l, bank@, res, #[trigger] deposit_result(l, t, account, amount));
        assert(step_matches(r, deposit_result(l, t, account, amount)));
    }
    r
}

/// The refund step at the current time: a deposit back into the source account.
pub fn refund(args: RefundArgs) -> (r: Result<Bank, StepError>)
    requires
        deposit_fits(args.bank@, args.account, args.amount),
    ensures
        exists|t: int| t >= 0 && step_matches(r, #[trigger] deposit_result(args.bank@, t, args.account, args.amount)),
{
    let ghost l = args.bank@;
    let RefundArgs { mut bank, account, amount } = args;
    let res = bank.deposit(account, amount);
    let r = finish(bank, res);
    proof {
        let t = choose|t: int| t >= 0 && settles(l, bank@, res, #[trigger] deposit_result(l, t, account, amount));
        assert(step_matches(r, deposit_result(l, t, account, amount)));
    }
    r
}

/// The verdict depends on the kind of error alone: equal kinds always get
/// equal verdicts, and every kind gets one.
pub proof fn lemma_classify_is_a_function(k1: BankError, k2: BankError)
    requires
        k1 == k2,
    ensures
        verdict_of(k1) == verdict_of(k2),
        verdict_of(k1) is Retryable || verdict_of(k1) is Terminal,
{
}

} // verus!
