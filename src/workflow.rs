//! The saga orchestrator: a state machine that sequences withdraw, deposit
//! and, when the deposit fails, a compensating refund. The runtime performs
//! each scheduled step and hands its resolution back.
use vstd::prelude::*;

use crate::activities::{deposit_at, refund_at, step_matches, step_result, withdraw_at, DepositArgs, RefundArgs, StepError, WithdrawArgs};
use crate::bank::{
    account_index, cooling_down, deposit_fits, deposit_result, is_first_index, lemma_first_index_exists,
    lemma_first_index_is_account_index, lemma_total_adjusted, total, withdraw_result, Bank,
    BankError, LedgerView, COOLDOWN_MILLIS,
};

verus! {

/// Attempts the runtime makes at each step before giving up on it.
pub const MAX_ATTEMPTS: u32 = 5;

/// Seconds a single attempt of a step may take.
pub const START_TO_CLOSE_TIMEOUT_SECS: u64 = 30;

#[derive(Debug)]
pub struct MoneyTransferArgs {
    pub bank: Bank,
    pub account_src: u32,
    pub account_tgt: u32,
    pub amount: u32,
}

#[derive(Clone, Copy, Debug, PartialEq, Eq, Structural)]
pub struct RetryPolicy {
    pub maximum_attempts: u32,
}

/// How the runtime is to run one step.
#[derive(Clone, Copy, Debug, PartialEq, Eq, Structural)]
pub struct StepOptions {
    pub start_to_close_timeout_secs: u64,
    pub retry_policy: RetryPolicy,
}

/// The steps, each under a name that stays fixed across deployments.
#[derive(Clone, Copy, Debug, PartialEq, Eq, Structural)]
pub enum StepName {
    Withdraw,
    Deposit,
    Refund,
}

/// One step as the saga schedules it.
#[derive(Debug)]
pub struct StepCall {
    pub step: StepName,
    pub bank: Bank,
    pub account: u32,
    pub amount: u32,
    pub options: StepOptions,
}

/// How the runtime resolved a scheduled step.
#[derive(Debug)]
pub enum StepOutcome {
    Completed(Bank),
    Failed(String),
    Cancelled(String),
    Throttled(String),
}

#[derive(Clone, Copy, Debug, PartialEq, Eq, Structural)]
pub enum FailureCause {
    Failed,
    Cancelled,
    Throttled,
}

/// A step that did not complete, with the runtime's reason.
#[derive(Debug)]
pub struct StepFailure {
    pub cause: FailureCause,
    pub reason: String,
}

/// How a saga ends.
#[derive(Debug)]
pub enum SagaOutcome {
    /// The transfer happened.
    Completed(Bank),
    /// The withdrawal failed; nothing needed undoing.
    WithdrawFailed(StepFailure),
    /// The deposit failed and the withdrawn amount went back to the source.
    Compensated { bank: Bank, deposit_failure: StepFailure },
    /// The deposit failed and so did the refund: the amount is stuck between
    /// the accounts and needs manual reconciliation. `bank` is the snapshot
    /// after the withdrawal.
    CompensationFailed { bank: Bank, deposit_failure: StepFailure, refund_failure: StepFailure },
}

/// Where a saga stands while it waits for a step.
#[derive(Debug)]
pub enum SagaState {
    Withdrawing,
    /// `bank` is the snapshot after the withdrawal.
    Depositing { bank: Bank },
    /// `bank` is the snapshot after the withdrawal.
    Compensating { bank: Bank, deposit_failure: StepFailure },
    Finished,
}

/// What the runtime is to do next.
#[derive(Debug)]
pub enum SagaAction {
    Schedule(StepCall),
    Finish(SagaOutcome),
}

/// A money transfer saga in progress.
#[derive(Debug)]
pub struct MoneyTransfer {
    pub account_src: u32,
    pub account_tgt: u32,
    pub amount: u32,
    pub state: SagaState,
}

pub open spec fn standard_options() -> StepOptions {
    StepOptions {
        start_to_close_timeout_secs: START_TO_CLOSE_TIMEOUT_SECS,
        retry_policy: RetryPolicy { maximum_attempts: MAX_ATTEMPTS },
    }
}

/// `a` schedules the given step on a snapshot equal to `ledger`.
pub open spec fn schedules(a: SagaAction, step: StepName, ledger: LedgerView, account: u32, amount: u32) -> bool {
    match a {
        SagaAction::Schedule(c) => c.step == step && c.bank@ == ledger && c.account == account
            && c.amount == amount && c.options == standard_options(),
        SagaAction::Finish(_) => false,
    }
}

/// The failure that a resolution other than `Completed` stands for.
pub open spec fn failure_of(o: StepOutcome) -> StepFailure {
    match o {
        StepOutcome::Completed(_) => arbitrary(),
        StepOutcome::Failed(reason) => StepFailure { cause: FailureCause::Failed, reason },
        StepOutcome::Cancelled(reason) => StepFailure { cause: FailureCause::Cancelled, reason },
        StepOutcome::Throttled(reason) => StepFailure { cause: FailureCause::Throttled, reason },
    }
}

/// The ledger operation behind a step.
pub open spec fn operation_result(step: StepName, l: LedgerView, now: int, account: u32, amount: u32) -> Result<LedgerView, BankError> {
    match step {
        StepName::Withdraw => withdraw_result(l, now, account, amount),
        StepName::Deposit => deposit_result(l, now, account, amount),
        StepName::Refund => deposit_result(l, now, account, amount),
    }
}

/// Every step: five attempts, thirty seconds each.
pub fn step_options() -> (r: StepOptions)
    ensures
        r == standard_options(),
{
    StepOptions {
        start_to_close_timeout_secs: START_TO_CLOSE_TIMEOUT_SECS,
        retry_policy: RetryPolicy { maximum_attempts: MAX_ATTEMPTS },
    }
}

impl StepName {
    /// The name under which the runtime routes the step to its handler.
    pub fn as_str(&self) -> (r: &'static str)
        ensures
            *self == StepName::Withdraw ==> r@ == "withdraw"@,
            *self == StepName::Deposit ==> r@ == "deposit"@,
            *self == StepName::Refund ==> r@ == "refund"@,
    {
        match self {
            StepName::Withdraw => "withdraw",
            StepName::Deposit => "deposit",
            StepName::Refund => "refund",
        }
    }
}

impl StepCall {
    /// Runs the step's ledger operation on its snapshot at time `now`.
    pub fn execute_at(self, now: i64) -> (r: Result<Bank, StepError>)
        requires
            self.step != StepName::Withdraw && !cooling_down(self.bank@.last_op_at, now as int)
                ==> deposit_fits(self.bank@, self.account, self.amount),
        ensures
            step_matches(r, operation_result(self.step, self.bank@, now as int, self.account, self.amount)),
    {
        let StepCall { step, bank, account, amount, options: _ } = self;
        match step {
            StepName::Withdraw => withdraw_at(WithdrawArgs { bank, account, amount }, now),
            StepName::Deposit => deposit_at(DepositArgs { bank, account, amount }, now),
            StepName::Refund => refund_at(RefundArgs { bank, account, amount }, now),
        }
    }
}

/// A step's resolution as the saga reads it: the new snapshot, or why the
/// step did not complete.
pub fn resolve(outcome: StepOutcome) -> (r: Result<Bank, StepFailure>)
    ensures
        match outcome {
            StepOutcome::Completed(b) => r == Ok::<Bank, StepFailure>(b),
            _ => r == Err::<Bank, StepFailure>(failure_of(outcome)),
        },
{
    match outcome {
        StepOutcome::Completed(bank) => Ok(bank),
        StepOutcome::Failed(reason) => Err(StepFailure { cause: FailureCause::Failed, reason }),
        StepOutcome::Cancelled(reason) => Err(StepFailure { cause: FailureCause::Cancelled, reason }),
        StepOutcome::Throttled(reason) => Err(StepFailure { cause: FailureCause::Throttled, reason }),
    }
}

impl MoneyTransfer {
    /// Starts the saga: the first step withdraws the amount from the source
    /// account of the caller's snapshot.
    pub fn start(args: MoneyTransferArgs) -> (r: (MoneyTransfer, SagaAction))
        ensures
            r.0.account_src == args.account_src,
            r.0.account_tgt == args.account_tgt,
            r.0.amount == args.amount,
            r.0.state is Withdrawing,
            schedules(r.1, StepName::Withdraw, args.bank@, args.account_src, args.amount),
    {
        let MoneyTransferArgs { bank, account_src, account_tgt, amount } = args;
        let call = StepCall { step: StepName::Withdraw, bank, account: account_src, amount, options: step_options() };
        (MoneyTransfer { account_src, account_tgt, amount, state: SagaState::Withdrawing }, SagaAction::Schedule(call))
    }

    pub fn is_finished(&self) -> (r: bool)
        ensures
            r == self.state is Finished,
    {
        match self.state {
            SagaState::Finished => true,
            _ => false,
        }
    }

    /// Takes the resolution of the step last scheduled and decides what comes
    /// next: the following step, or the end of the saga.
    pub fn resume(&mut self, outcome: StepOutcome) -> (a: SagaAction)
        requires
            !(old(self).state is Finished),
        ensures
            final(self).account_src == old(self).account_src,
            final(self).account_tgt == old(self).account_tgt,
            final(self).amount == old(self).amount,
            old(self).state is Withdrawing ==> match outcome {
                StepOutcome::Completed(b) => final(self).state is Depositing
                    && final(self).state->Depositing_bank@ == b@
                    && schedules(a, StepName::Deposit, b@, old(self).account_tgt, old(self).amount),
                _ => final(self).state is Finished
                    && a == SagaAction::Finish(SagaOutcome::WithdrawFailed(failure_of(outcome))),
            },
            old(self).state is Depositing ==> match outcome {
                StepOutcome::Completed(b) => final(self).state is Finished
                    && a == SagaAction::Finish(SagaOutcome::Completed(b)),
                _ => final(self).state is Compensating
                    && final(self).state->Compensating_bank@ == old(self).state->Depositing_bank@
                    && final(self).state->Compensating_deposit_failure == failure_of(outcome)
                    && schedules(a, StepName::Refund, old(self).state->Depositing_bank@, old(self).account_src, old(self).amount),
            },
            old(self).state is Compensating ==> final(self).state is Finished && match outcome {
                StepOutcome::Completed(b) => a == SagaAction::Finish(SagaOutcome::Compensated {
                    bank: b,
                    deposit_failure: old(self).state->Compensating_deposit_failure,
                }),
                _ => a is Finish && a->Finish_0 is CompensationFailed
                    && a->Finish_0->CompensationFailed_bank@ == old(self).state->Compensating_bank@
                    && a->Finish_0->CompensationFailed_deposit_failure == old(self).state->Compensating_deposit_failure
                    && a->Finish_0->CompensationFailed_refund_failure == failure_of(outcome),
            },
    {
        let mut state = SagaState::Finished;
        std::mem::swap(&mut self.state, &mut state);
        let resolved = resolve(outcome);
        match state {
            SagaState::Withdrawing => match resolved {
                Ok(bank) => {
                    let kept = bank.snapshot();
                    let call = StepCall { step: StepName::Deposit, bank, account: self.account_tgt, amount: self.amount, options: step_options() };
                    self.state = SagaState::Depositing { bank: kept };
                    SagaAction::Schedule(call)
                },
                Err(failure) => SagaAction::Finish(SagaOutcome::WithdrawFailed(failure)),
            },
            SagaState::Depositing { bank } => match resolved {
                Ok(deposited) => SagaAction::Finish(SagaOutcome::Completed(deposited)),
                Err(deposit_failure) => {
                    let kept = bank.snapshot();
                    let call = StepCall { step: StepName::Refund, bank, account: self.account_src, amount: self.amount, options: step_options() };
                    self.state = SagaState::Compensating { bank: kept, deposit_failure };
                    SagaAction::Schedule(call)
                },
            },
            SagaState::Compensating { bank, deposit_failure } => match resolved {
                Ok(refunded) => SagaAction::Finish(SagaOutcome::Compensated { bank: refunded, deposit_failure }),
                Err(refund_failure) => SagaAction::Finish(SagaOutcome::CompensationFailed { bank, deposit_failure, refund_failure }),
            },
            SagaState::Finished => unreached(),
        }
    }
}

/// Conservation: when the withdrawal and then the deposit of a transfer both
/// complete, each run on the snapshot that the saga hands it (the caller's
/// snapshot, then the one the withdrawal produced), the sum of all balances
/// is what it was before the saga.
pub proof fn lemma_completed_transfer_conserves_total(
    l: LedgerView,
    t_withdraw: int,
    t_deposit: int,
    account_src: u32,
    account_tgt: u32,
    amount: u32,
)
    requires
        operation_result(StepName::Withdraw, l, t_withdraw, account_src, amount) is Ok,
        operation_result(
            StepName::Deposit,
            operation_result(StepName::Withdraw, l, t_withdraw, account_src, amount)->Ok_0,
            t_deposit,
            account_tgt,
            amount,
        ) is Ok,
    ensures
        total(
            operation_result(
                StepName::Deposit,
                operation_result(StepName::Withdraw, l, t_withdraw, account_src, amount)->Ok_0,
                t_deposit,
                account_tgt,
                amount,
            )->Ok_0.accounts,
        ) == total(l.accounts),
{
    let withdrawn = withdraw_result(l, t_withdraw, account_src, amount)->Ok_0;
    lemma_total_adjusted(l.accounts, account_src, -(amount as int));
    lemma_total_adjusted(withdrawn.accounts, account_tgt, amount as int);
}

/// Rollback: when the withdrawal completes and the refund into the source
/// account completes on the snapshot the withdrawal produced, every account,
/// the source and the target among them, holds what it held before the saga.
pub proof fn lemma_compensated_transfer_restores_accounts(
    l: LedgerView,
    t_withdraw: int,
    t_refund: int,
    account_src: u32,
    amount: u32,
)
    requires
        operation_result(StepName::Withdraw, l, t_withdraw, account_src, amount) is Ok,
        operation_result(
            StepName::Refund,
            operation_result(StepName::Withdraw, l, t_withdraw, account_src, amount)->Ok_0,
            t_refund,
            account_src,
            amount,
        ) is Ok,
    ensures
        operation_result(
            StepName::Refund,
            operation_result(StepName::Withdraw, l, t_withdraw, account_src, amount)->Ok_0,
            t_refund,
            account_src,
            amount,
        )->Ok_0.accounts == l.accounts,
{
    let w = choose|w: int| 0 <= w < l.accounts.len() && l.accounts[w].id == account_src;
    lemma_first_index_exists(l.accounts, account_src, w);
    let i = account_index(l.accounts, account_src);
    let withdrawn = withdraw_result(l, t_withdraw, account_src, amount)->Ok_0;
    assert(is_first_index(withdrawn.accounts, account_src, i));
    lemma_first_index_is_account_index(withdrawn.accounts, account_src, i);
    let refunded = deposit_result(withdrawn, t_refund, account_src, amount)->Ok_0;
    assert(refunded.accounts =~= l.accounts);
}

/// Cooldown: once a step has changed a snapshot at `t_first`, any step run on
/// the resulting snapshot less than the cooldown later fails with `TooSoon`,
/// which the runtime may retry.
pub proof fn lemma_second_step_too_soon(
    first: StepName,
    second: StepName,
    l: LedgerView,
    t_first: int,
    t_second: int,
    account_first: u32,
    amount_first: u32,
    account_second: u32,
    amount_second: u32,
)
    requires
        operation_result(first, l, t_first, account_first, amount_first) is Ok,
        t_second - t_first < COOLDOWN_MILLIS,
    ensures
        operation_result(
            second,
            operation_result(first, l, t_first, account_first, amount_first)->Ok_0,
            t_second,
            account_second,
            amount_second,
        ) == Err::<LedgerView, BankError>(BankError::TooSoon),
        step_result(
            operation_result(
                second,
                operation_result(first, l, t_first, account_first, amount_first)->Ok_0,
                t_second,
                account_second,
                amount_second,
            ),
        ) == Err::<LedgerView, StepError>(StepError::Retryable(BankError::TooSoon)),
{
}

} // verus!
