//! The ledger: accounts with balances and a ledger-wide cooldown between
//! mutations.
use vstd::prelude::*;

verus! {

/// Milliseconds that must pass after a mutation before the next one.
pub const COOLDOWN_MILLIS: i64 = 5000;

#[derive(Clone, Copy, Debug, PartialEq, Eq, Structural)]
pub struct Account {
    pub id: u32,
    pub balance: u32,
}

/// An account as the contracts see it: its balance as an integer.
pub struct AccountView {
    pub id: u32,
    pub balance: int,
}

impl View for Account {
    type V = AccountView;

    open spec fn view(&self) -> AccountView {
        AccountView { id: self.id, balance: self.balance as int }
    }
}

/// A ledger snapshot as the contracts see it.
pub struct LedgerView {
    pub accounts: Seq<AccountView>,
    /// Time of the last mutation, in milliseconds since the Unix epoch.
    pub last_op_at: int,
}

#[derive(Clone, Copy, Debug, PartialEq, Eq, Structural)]
pub enum BankError {
    /// No account has the id.
    InvalidAccount,
    /// The cooldown since the last mutation has not passed.
    TooSoon,
    /// The amount exceeds the balance.
    NotEnoughMoney,
}

/// An in-memory ledger snapshot.
#[derive(Clone, Debug)]
pub struct Bank {
    accounts: Vec<Account>,
    last_op_at: i64,
}

pub open spec fn accounts_view(accounts: Seq<Account>) -> Seq<AccountView> {
    accounts.map_values(|a: Account| a@)
}

/// Whether a mutation at `now` comes too soon after one at `last`.
pub open spec fn cooling_down(last: int, now: int) -> bool {
    now - last < COOLDOWN_MILLIS
}

/// `i` is the first position of an account with the given id.
pub open spec fn is_first_index(accounts: Seq<AccountView>, id: u32, i: int) -> bool {
    &&& 0 <= i < accounts.len()
    &&& accounts[i].id == id
    &&& forall|j: int| 0 <= j < i ==> accounts[j].id != id
}

pub open spec fn has_account(accounts: Seq<AccountView>, id: u32) -> bool {
    exists|i: int| 0 <= i < accounts.len() && accounts[i].id == id
}

/// The position of the account that an operation on `id` touches: the first
/// with that id.
pub open spec fn account_index(accounts: Seq<AccountView>, id: u32) -> int {
    choose|i: int| is_first_index(accounts, id, i)
}

pub open spec fn balance_of(accounts: Seq<AccountView>, id: u32) -> int {
    accounts[account_index(accounts, id)].balance
}

/// The accounts with `delta` added to the balance of the account `id`.
pub open spec fn adjusted(accounts: Seq<AccountView>, id: u32, delta: int) -> Seq<AccountView> {
    let i = account_index(accounts, id);
    accounts.update(i, AccountView { id, balance: accounts[i].balance + delta })
}

/// The outcome of a deposit at time `now`: the new snapshot, or the error.
pub open spec fn deposit_result(l: LedgerView, now: int, id: u32, amount: u32) -> Result<LedgerView, BankError> {
    if cooling_down(l.last_op_at, now) {
        Err(BankError::TooSoon)
    } else if !has_account(l.accounts, id) {
        Err(BankError::InvalidAccount)
    } else {
        Ok(LedgerView { accounts: adjusted(l.accounts, id, amount as int), last_op_at: now })
    }
}

/// The outcome of a withdrawal at time `now`: the new snapshot, or the error.
pub open spec fn withdraw_result(l: LedgerView, now: int, id: u32, amount: u32) -> Result<LedgerView, BankError> {
    if cooling_down(l.last_op_at, now) {
        Err(BankError::TooSoon)
    } else if !has_account(l.accounts, id) {
        Err(BankError::InvalidAccount)
    } else if amount > balance_of(l.accounts, id) {
        Err(BankError::NotEnoughMoney)
    } else {
        Ok(LedgerView { accounts: adjusted(l.accounts, id, -(amount as int)), last_op_at: now })
    }
}

/// A deposit of `amount` into `id` keeps every balance within `u32`.
pub open spec fn deposit_fits(l: LedgerView, id: u32, amount: u32) -> bool {
    has_account(l.accounts, id) ==> balance_of(l.accounts, id) + amount <= u32::MAX
}

/// The operation returned `r` and left the snapshot `after`, where the
/// ledger model gives `expected`: on an error the snapshot is unchanged.
pub open spec fn settles(before: LedgerView, after: LedgerView, r: Result<(), BankError>, expected: Result<LedgerView, BankError>) -> bool {
    match expected {
        Ok(v) => r is Ok && after == v,
        Err(e) => r == Err::<(), BankError>(e) && after == before,
    }
}

/// Relies on chrono::Utc::now and DateTime::timestamp_millis: the current
/// time in milliseconds since the Unix epoch, never before it.
#[verifier::external_body]
fn now_millis() -> (r: i64)
    ensures
        r >= 0,
{
    chrono::Utc::now().timestamp_millis()
}

impl View for Bank {
    type V = LedgerView;

    closed spec fn view(&self) -> LedgerView {
        LedgerView { accounts: accounts_view(self.accounts@), last_op_at: self.last_op_at as int }
    }
}

impl Bank {
    /// A ledger whose cooldown starts now.
    pub fn new(accounts: Vec<Account>) -> (r: Bank)
        ensures
            r@.accounts == accounts_view(accounts@),
            r@.last_op_at >= 0,
    {
        let now = now_millis();
        Bank { accounts, last_op_at: now }
    }

    /// A ledger whose last mutation happened at `last_op_at`.
    pub fn with_last_op_at(accounts: Vec<Account>, last_op_at: i64) -> (r: Bank)
        ensures
            r@ == (LedgerView { accounts: accounts_view(accounts@), last_op_at: last_op_at as int }),
    {
        Bank { accounts, last_op_at }
    }

    pub fn accounts(&self) -> (r: &Vec<Account>)
        ensures
            accounts_view(r@) == self@.accounts,
    {
        &self.accounts
    }

    pub fn last_op_at(&self) -> (r: i64)
        ensures
            r as int == self@.last_op_at,
    {
        self.last_op_at
    }

    /// An independent copy of this snapshot.
    pub fn snapshot(&self) -> (r: Bank)
        ensures
            r@ == self@,
    {
        let mut accounts: Vec<Account> = Vec::new();
        let mut i: usize = 0;
        while i < self.accounts.len()
            invariant
                0 <= i <= self.accounts.len(),
                accounts@ == self.accounts@.subrange(0, i as int),
            decreases self.accounts.len() - i,
        {
            accounts.push(self.accounts[i]);
            i = i + 1;
        }
        assert(accounts@ =~= self.accounts@);
        Bank { accounts, last_op_at: self.last_op_at }
    }

    /// The position of the first account with the given id.
    fn find(&self, account_id: u32) -> (r: Option<usize>)
        ensures
            match r {
                Some(i) => is_first_index(self@.accounts, account_id, i as int),
                None => !has_account(self@.accounts, account_id),
            },
    {
        let mut i: usize = 0;
        while i < self.accounts.len()
            invariant
                0 <= i <= self.accounts.len(),
                forall|j: int| 0 <= j < i ==> self@.accounts[j].id != account_id,
            decreases self.accounts.len() - i,
        {
            if self.accounts[i].id == account_id {
                return Some(i);
            }
            i = i + 1;
        }
        None
    }

    /// The balance of the account with the given id, if there is one.
    pub fn balance(&self, account_id: u32) -> (r: Option<u32>)
        ensures
            match r {
                Some(b) => has_account(self@.accounts, account_id)
                    && b as int == balance_of(self@.accounts, account_id),
                None => !has_account(self@.accounts, account_id),
            },
    {
        match self.find(account_id) {
            Some(i) => {
                proof { lemma_first_index_is_account_index(self@.accounts, account_id, i as int); }
                Some(self.accounts[i].balance)
            },
            None => None,
        }
    }

    fn too_soon(&self, now: i64) -> (r: bool)
        ensures
            r == cooling_down(self@.last_op_at, now as int),
    {
        (now as i128) - (self.last_op_at as i128) < COOLDOWN_MILLIS as i128
    }

    /// Deposits `amount` into the account `account_id` at time `now`.
    pub fn deposit_at(&mut self, now: i64, account_id: u32, amount: u32) -> (r: Result<(), BankError>)
        requires
            !cooling_down(old(self)@.last_op_at, now as int) ==> deposit_fits(old(self)@, account_id, amount),
        ensures
            settles(old(self)@, final(self)@, r, deposit_result(old(self)@, now as int, account_id, amount)),
    {
        if self.too_soon(now) {
            return Err(BankError::TooSoon);
        }
        match self.find(account_id) {
            None => Err(BankError::InvalidAccount),
            Some(i) => {
                proof { lemma_first_index_is_account_index(self@.accounts, account_id, i as int); }
                let ghost before = self@;
                let a = self.accounts[i];
                self.accounts.set(i, Account { id: a.id, balance: a.balance + amount });
                self.last_op_at = now;
                assert(self@.accounts =~= adjusted(before.accounts, account_id, amount as int));
                Ok(())
            },
        }
    }

    /// Withdraws `amount` from the account `account_id` at time `now`.
    pub fn withdraw_at(&mut self, now: i64, account_id: u32, amount: u32) -> (r: Result<(), BankError>)
        ensures
            settles(old(self)@, final(self)@, r, withdraw_result(old(self)@, now as int, account_id, amount)),
    {
        if self.too_soon(now) {
            return Err(BankError::TooSoon);
        }
        match self.find(account_id) {
            None => Err(BankError::InvalidAccount),
            Some(i) => {
                proof { lemma_first_index_is_account_index(self@.accounts, account_id, i as int); }
                let ghost before = self@;
                let a = self.accounts[i];
                if amount <= a.balance {
                    self.accounts.set(i, Account { id: a.id, balance: a.balance - amount });
                    self.last_op_at = now;
                    assert(self@.accounts =~= adjusted(before.accounts, account_id, -(amount as int)));
                    Ok(())
                } else {
                    Err(BankError::NotEnoughMoney)
                }
            },
        }
    }

    /// Deposits `amount` into the account `account_id` at the current time.
    pub fn deposit(&mut self, account_id: u32, amount: u32) -> (r: Result<(), BankError>)
        requires
            deposit_fits(old(self)@, account_id, amount),
        ensures
            exists|t: int| t >= 0 && settles(old(self)@, final(self)@, r, #[trigger] deposit_result(old(self)@, t, account_id, amount)),
    {
        let now = now_millis();
        let r = self.deposit_at(now, account_id, amount);
        assert(settles(old(self)@, self@, r, deposit_result(old(self)@, now as int, account_id, amount)));
        r
    }

    /// Withdraws `amount` from the account `account_id` at the current time.
    pub fn withdraw(&mut self, account_id: u32, amount: u32) -> (r: Result<(), BankError>)
        ensures
            exists|t: int| t >= 0 && settles(old(self)@, final(self)@, r, #[trigger] withdraw_result(old(self)@, t, account_id, amount)),
    {
        let now = now_millis();
        let r = self.withdraw_at(now, account_id, amount);
        assert(settles(old(self)@, self@, r, withdraw_result(old(self)@, now as int, account_id, amount)));
        r
    }
}

/// The first position of an account is the one that the operations touch.
pub proof fn lemma_first_index_is_account_index(accounts: Seq<AccountView>, id: u32, i: int)
    requires
        is_first_index(accounts, id, i),
    ensures
        account_index(accounts, id) == i,
        has_account(accounts, id),
{
    let k = account_index(accounts, id);
    assert(is_first_index(accounts, id, k));
    if k < i {
        assert(accounts[k].id != id);
    } else if i < k {
        assert(accounts[i].id != id);
    }
}

pub open spec fn balances_non_negative(accounts: Seq<AccountView>) -> bool {
    forall|i: int| 0 <= i < accounts.len() ==> #[trigger] accounts[i].balance >= 0
}

pub open spec fn same_ids(a: Seq<AccountView>, b: Seq<AccountView>) -> bool {
    &&& a.len() == b.len()
    &&& forall|i: int| 0 <= i < a.len() ==> #[trigger] a[i].id == b[i].id
}

/// The sum of all balances.
pub open spec fn total(accounts: Seq<AccountView>) -> int
    decreases accounts.len(),
{
    if accounts.len() == 0 {
        0
    } else {
        total(accounts.drop_last()) + accounts.last().balance
    }
}

/// No snapshot that a `Bank` holds has a negative balance, nor one beyond
/// `u32`.
pub proof fn lemma_bank_balances_non_negative(b: &Bank)
    ensures
        balances_non_negative(b@.accounts),
        forall|i: int| 0 <= i < b@.accounts.len() ==> #[trigger] b@.accounts[i].balance <= u32::MAX,
{
}

/// Deposits and withdrawals never make a balance negative, never add,
/// remove or rename an account, and only move the clock forward.
pub proof fn lemma_operations_keep_balances_non_negative(l: LedgerView, now: int, id: u32, amount: u32)
    requires
        balances_non_negative(l.accounts),
    ensures
        deposit_result(l, now, id, amount) is Ok ==> {
            let v = deposit_result(l, now, id, amount)->Ok_0;
            balances_non_negative(v.accounts) && same_ids(l.accounts, v.accounts) && v.last_op_at > l.last_op_at
        },
        withdraw_result(l, now, id, amount) is Ok ==> {
            let v = withdraw_result(l, now, id, amount)->Ok_0;
            balances_non_negative(v.accounts) && same_ids(l.accounts, v.accounts) && v.last_op_at > l.last_op_at
        },
{
    if has_account(l.accounts, id) {
        let i = account_index(l.accounts, id);
        let w = choose|w: int| 0 <= w < l.accounts.len() && l.accounts[w].id == id;
        lemma_first_index_exists(l.accounts, id, w);
        assert(is_first_index(l.accounts, id, i));
    }
}

/// Where some account has the id, a first one has it.
pub proof fn lemma_first_index_exists(accounts: Seq<AccountView>, id: u32, w: int)
    requires
        0 <= w < accounts.len(),
        accounts[w].id == id,
    ensures
        is_first_index(accounts, id, account_index(accounts, id)),
    decreases w,
{
    if exists|j: int| 0 <= j < w && accounts[j].id == id {
        let j = choose|j: int| 0 <= j < w && accounts[j].id == id;
        lemma_first_index_exists(accounts, id, j);
    } else {
        assert(is_first_index(accounts, id, w));
    }
}

/// Changing one balance changes the sum by the same amount.
pub proof fn lemma_total_update(accounts: Seq<AccountView>, i: int, a: AccountView)
    requires
        0 <= i < accounts.len(),
    ensures
        total(accounts.update(i, a)) == total(accounts) - accounts[i].balance + a.balance,
    decreases accounts.len(),
{
    let u = accounts.update(i, a);
    if i == accounts.len() - 1 {
        assert(u.drop_last() =~= accounts.drop_last());
    } else {
        assert(u.drop_last() =~= accounts.drop_last().update(i, a));
        lemma_total_update(accounts.drop_last(), i, a);
    }
}

/// Adjusting the balance of an existing account changes the sum by the
/// adjustment.
pub proof fn lemma_total_adjusted(accounts: Seq<AccountView>, id: u32, delta: int)
    requires
        has_account(accounts, id),
    ensures
        total(adjusted(accounts, id, delta)) == total(accounts) + delta,
        has_account(adjusted(accounts, id, delta), id),
        balance_of(adjusted(accounts, id, delta), id) == balance_of(accounts, id) + delta,
        same_ids(accounts, adjusted(accounts, id, delta)),
{
    let w = choose|w: int| 0 <= w < accounts.len() && accounts[w].id == id;
    lemma_first_index_exists(accounts, id, w);
    let i = account_index(accounts, id);
    let adj = adjusted(accounts, id, delta);
    lemma_total_update(accounts, i, AccountView { id, balance: accounts[i].balance + delta });
    assert(is_first_index(adj, id, i));
    lemma_first_index_is_account_index(adj, id, i);
}

} // verus!
