//! The state of one ledger instance: the configuration, the fixed
//! denomination, and the table of savings balances.

use vstd::prelude::*;
use vstd::set_lib::lemma_subset_equality;
use vstd::std_specs::cmp::PartialEqSpecImpl;

verus! {

/// The configuration: the counter and the account that may reset it.
#[derive(Clone, Debug, PartialEq, Eq)]
pub struct State {
    pub count: i32,
    pub owner: String,
}

/// One row of the balance table.
#[derive(Debug, PartialEq, Eq)]
struct Deposit {
    account: String,
    balance: u128,
}

/// The balance table: at most one balance for each account.
///
/// An account has no row until something is saved for it, and a row is never
/// removed: a balance of zero is still a row. Two tables are equal when they
/// hold the same balances for the same accounts.
#[derive(Debug, Eq)]
pub struct Deposits {
    entries: Vec<Deposit>,
}

/// The map that a list of rows stands for; a later row for an account would
/// take the place of an earlier one.
spec fn balances_of(rows: Seq<Deposit>) -> Map<Seq<char>, nat>
    decreases rows.len(),
{
    if rows.len() == 0 {
        Map::empty()
    } else {
        balances_of(rows.drop_last()).insert(rows.last().account@, rows.last().balance as nat)
    }
}

/// No account has two rows.
spec fn distinct_accounts(rows: Seq<Deposit>) -> bool {
    forall|i: int, j: int|
        0 <= i < j < rows.len() ==> (#[trigger] rows[i]).account@ != (#[trigger] rows[j]).account@
}

/// Without its last row, a list of rows for distinct accounts is still one,
/// and none of the rows left is for the account of the row taken away.
proof fn lemma_front_distinct(rows: Seq<Deposit>)
    requires
        distinct_accounts(rows),
        rows.len() > 0,
    ensures
        distinct_accounts(rows.drop_last()),
        forall|i: int|
            0 <= i < rows.len() - 1 ==> (#[trigger] rows.drop_last()[i]).account@
                != rows.last().account@,
{
    let front = rows.drop_last();
    assert forall|a: int, b: int| 0 <= a < b < front.len() implies (#[trigger] front[a]).account@
        != (#[trigger] front[b]).account@ by {
        assert(front[a] == rows[a] && front[b] == rows[b]);
    }
    assert forall|i: int| 0 <= i < rows.len() - 1 implies (#[trigger] front[i]).account@
        != rows.last().account@ by {
        assert(front[i] == rows[i]);
        assert(rows.last() == rows[rows.len() - 1]);
    }
}

proof fn lemma_balances_finite(rows: Seq<Deposit>)
    ensures
        balances_of(rows).dom().finite(),
    decreases rows.len(),
{
    if rows.len() > 0 {
        lemma_balances_finite(rows.drop_last());
    }
}

proof fn lemma_balances_fit(rows: Seq<Deposit>, account: Seq<char>)
    requires
        balances_of(rows).contains_key(account),
    ensures
        balances_of(rows)[account] <= u128::MAX,
    decreases rows.len(),
{
    if rows.len() > 0 && rows.last().account@ != account {
        lemma_balances_fit(rows.drop_last(), account);
    }
}

proof fn lemma_absent(rows: Seq<Deposit>, account: Seq<char>)
    requires
        forall|i: int| 0 <= i < rows.len() ==> (#[trigger] rows[i]).account@ != account,
    ensures
        !balances_of(rows).contains_key(account),
    decreases rows.len(),
{
    if rows.len() > 0 {
        let front = rows.drop_last();
        assert forall|i: int| 0 <= i < front.len() implies (#[trigger] front[i]).account@
            != account by {
            assert(front[i] == rows[i]);
        }
        lemma_absent(front, account);
    }
}

proof fn lemma_present(rows: Seq<Deposit>, i: int)
    requires
        distinct_accounts(rows),
        0 <= i < rows.len(),
    ensures
        balances_of(rows).contains_key(rows[i].account@),
        balances_of(rows)[rows[i].account@] == rows[i].balance as nat,
    decreases rows.len(),
{
    let front = rows.drop_last();
    if i < rows.len() - 1 {
        lemma_front_distinct(rows);
        assert(front[i] == rows[i]);
        lemma_present(front, i);
    }
}

proof fn lemma_row_of(rows: Seq<Deposit>, account: Seq<char>) -> (i: int)
    requires
        balances_of(rows).contains_key(account),
    ensures
        0 <= i < rows.len(),
        rows[i].account@ == account,
{
    if forall|j: int| 0 <= j < rows.len() ==> (#[trigger] rows[j]).account@ != account {
        lemma_absent(rows, account);
    }
    choose|j: int| 0 <= j < rows.len() && (#[trigger] rows[j]).account@ == account
}

proof fn lemma_one_row_each(rows: Seq<Deposit>)
    requires
        distinct_accounts(rows),
    ensures
        balances_of(rows).dom().finite(),
        balances_of(rows).dom().len() == rows.len(),
    decreases rows.len(),
{
    lemma_balances_finite(rows);
    if rows.len() > 0 {
        let front = rows.drop_last();
        lemma_front_distinct(rows);
        lemma_one_row_each(front);
        lemma_absent(front, rows.last().account@);
        assert(balances_of(rows).dom() =~= balances_of(front).dom().insert(rows.last().account@));
    }
}

/// Tables of as many rows, where each row of the one is found in the other,
/// stand for the same map.
proof fn lemma_same_rows(rows: Seq<Deposit>, others: Seq<Deposit>)
    requires
        distinct_accounts(rows),
        distinct_accounts(others),
        rows.len() == others.len(),
        forall|j: int|
            0 <= j < rows.len() ==> balances_of(others).contains_key(
                (#[trigger] rows[j]).account@,
            ) && balances_of(others)[rows[j].account@] == rows[j].balance as nat,
    ensures
        balances_of(rows) == balances_of(others),
{
    let here = balances_of(rows);
    let there = balances_of(others);
    lemma_one_row_each(rows);
    lemma_one_row_each(others);
    assert forall|account: Seq<char>| #[trigger]
        here.dom().contains(account) implies there.dom().contains(account) && there[account]
        == here[account] by {
        let j = lemma_row_of(rows, account);
        lemma_present(rows, j);
    }
    assert(here.dom().subset_of(there.dom()));
    lemma_subset_equality(here.dom(), there.dom());
    assert(here =~= there);
}

proof fn lemma_replace(rows: Seq<Deposit>, i: int, row: Deposit)
    requires
        distinct_accounts(rows),
        0 <= i < rows.len(),
        row.account@ == rows[i].account@,
    ensures
        distinct_accounts(rows.update(i, row)),
        balances_of(rows.update(i, row)) == balances_of(rows).insert(
            row.account@,
            row.balance as nat,
        ),
    decreases rows.len(),
{
    let next = rows.update(i, row);
    assert forall|a: int, b: int| 0 <= a < b < next.len() implies (#[trigger] next[a]).account@
        != (#[trigger] next[b]).account@ by {
        assert(next[a].account@ == rows[a].account@);
        assert(next[b].account@ == rows[b].account@);
    }
    let front = rows.drop_last();
    if i == rows.len() - 1 {
        assert(next.drop_last() =~= front);
        assert(balances_of(next) =~= balances_of(rows).insert(row.account@, row.balance as nat));
    } else {
        lemma_front_distinct(rows);
        assert(front[i] == rows[i]);
        lemma_replace(front, i, row);
        assert(next.drop_last() =~= front.update(i, row));
        assert(next.last() == rows.last());
        assert(rows.last() == rows[rows.len() - 1]);
        assert(rows.last().account@ != row.account@);
        assert(balances_of(next) =~= balances_of(rows).insert(row.account@, row.balance as nat));
    }
}

proof fn lemma_append(rows: Seq<Deposit>, row: Deposit)
    requires
        distinct_accounts(rows),
        forall|i: int| 0 <= i < rows.len() ==> (#[trigger] rows[i]).account@ != row.account@,
    ensures
        distinct_accounts(rows.push(row)),
        balances_of(rows.push(row)) == balances_of(rows).insert(row.account@, row.balance as nat),
{
    let next = rows.push(row);
    assert forall|a: int, b: int| 0 <= a < b < next.len() implies (#[trigger] next[a]).account@
        != (#[trigger] next[b]).account@ by {
        assert(next[a] == rows[a]);
        if b < rows.len() {
            assert(next[b] == rows[b]);
        }
    }
    assert(next.drop_last() =~= rows);
}

impl Deposits {
    #[verifier::type_invariant]
    spec fn well_formed(&self) -> bool {
        distinct_accounts(self.entries@)
    }

    /// The table as a map from account to balance.
    pub closed spec fn view(&self) -> Map<Seq<char>, nat> {
        balances_of(self.entries@)
    }

    /// The table holds finitely many rows, and every balance fits in 128
    /// bits.
    pub proof fn lemma_view_bounded(&self)
        ensures
            self@.dom().finite(),
            forall|account: Seq<char>| #[trigger]
                self@.contains_key(account) ==> self@[account] <= u128::MAX,
    {
        lemma_balances_finite(self.entries@);
        assert forall|account: Seq<char>| #[trigger]
            self@.contains_key(account) implies self@[account] <= u128::MAX by {
            lemma_balances_fit(self.entries@, account);
        }
    }

    /// The table with no rows.
    pub fn new() -> (table: Deposits)
        ensures
            table@ == Map::<Seq<char>, nat>::empty(),
    {
        Deposits { entries: Vec::new() }
    }

    /// The index of the row of `account`, if it has one.
    fn position(&self, account: &String) -> (at: Option<usize>)
        ensures
            match at {
                Some(i) => i < self.entries@.len() && self.entries@[i as int].account@ == account@,
                None => forall|i: int|
                    0 <= i < self.entries@.len() ==> (#[trigger] self.entries@[i]).account@
                        != account@,
            },
    {
        let mut i: usize = 0;
        while i < self.entries.len()
            invariant
                i <= self.entries@.len(),
                forall|j: int| 0 <= j < i ==> (#[trigger] self.entries@[j]).account@ != account@,
            decreases self.entries@.len() - i,
        {
            if self.entries[i].account == *account {
                return Some(i);
            }
            i += 1;
        }
        None
    }

    /// The balance of `account`, or `None` if it has no row.
    pub fn may_load(&self, account: &String) -> (balance: Option<u128>)
        ensures
            match balance {
                Some(b) => self@.contains_key(account@) && self@[account@] == b as nat,
                None => !self@.contains_key(account@),
            },
    {
        proof {
            use_type_invariant(self);
        }
        match self.position(account) {
            Some(i) => {
                proof {
                    lemma_present(self.entries@, i as int);
                }
                Some(self.entries[i].balance)
            },
            None => {
                proof {
                    lemma_absent(self.entries@, account@);
                }
                None
            },
        }
    }

    /// Sets the balance of `account` to `balance`, with a new row if it had
    /// none. No other account is touched.
    pub fn save(&mut self, account: &String, balance: u128)
        ensures
            final(self)@ == old(self)@.insert(account@, balance as nat),
    {
        proof {
            use_type_invariant(&*self);
        }
        let row = Deposit { account: account.clone(), balance };
        let at = self.position(account);
        // The rows are edited out of place, so that the table is whole at
        // every point where the edit could stop.
        let mut rows: Vec<Deposit> = Vec::new();
        std::mem::swap(&mut rows, &mut self.entries);
        match at {
            Some(i) => {
                proof {
                    lemma_replace(rows@, i as int, row);
                }
                rows.set(i, row);
            },
            None => {
                proof {
                    lemma_append(rows@, row);
                }
                rows.push(row);
            },
        }
        self.entries = rows;
    }
}

impl PartialEq for Deposits {
    fn eq(&self, other: &Deposits) -> (same: bool) {
        proof {
            use_type_invariant(self);
            use_type_invariant(other);
            lemma_one_row_each(self.entries@);
            lemma_one_row_each(other.entries@);
        }
        if self.entries.len() != other.entries.len() {
            return false;
        }
        let mut i: usize = 0;
        while i < self.entries.len()
            invariant
                i <= self.entries@.len(),
                distinct_accounts(self.entries@),
                forall|j: int|
                    0 <= j < i ==> other@.contains_key((#[trigger] self.entries@[j]).account@)
                        && other@[self.entries@[j].account@] == self.entries@[j].balance as nat,
            decreases self.entries@.len() - i,
        {
            proof {
                lemma_present(self.entries@, i as int);
            }
            match other.may_load(&self.entries[i].account) {
                Some(balance) => {
                    if balance != self.entries[i].balance {
                        return false;
                    }
                },
                None => {
                    return false;
                },
            }
            i += 1;
        }
        proof {
            lemma_same_rows(self.entries@, other.entries@);
        }
        true
    }
}

impl PartialEqSpecImpl for Deposits {
    open spec fn obeys_eq_spec() -> bool {
        true
    }

    open spec fn eq_spec(&self, other: &Deposits) -> bool {
        self@ == other@
    }
}

impl Clone for Deposits {
    fn clone(&self) -> (copy: Deposits)
        ensures
            copy@ == self@,
    {
        proof {
            use_type_invariant(self);
        }
        let mut rows: Vec<Deposit> = Vec::new();
        let mut i: usize = 0;
        while i < self.entries.len()
            invariant
                i <= self.entries@.len(),
                rows@ == self.entries@.take(i as int),
            decreases self.entries@.len() - i,
        {
            let row = Deposit {
                account: self.entries[i].account.clone(),
                balance: self.entries[i].balance,
            };
            rows.push(row);
            i += 1;
            assert(rows@ =~= self.entries@.take(i as int));
        }
        assert(rows@ =~= self.entries@);
        Deposits { entries: rows }
    }
}

/// One instance of the ledger.
#[derive(Clone, Debug, PartialEq, Eq)]
pub struct Ledger {
    /// The counter and its owner.
    pub state: State,
    /// The only denomination that deposits, withdrawals and donations are
    /// made in.
    pub donation_denom: String,
    /// The savings balance of each depositor.
    pub deposits: Deposits,
}

/// The mathematical value of a [`Ledger`].
pub struct LedgerView {
    pub count: int,
    pub owner: Seq<char>,
    pub donation_denom: Seq<char>,
    pub balances: Map<Seq<char>, nat>,
}

impl View for Ledger {
    type V = LedgerView;

    open spec fn view(&self) -> LedgerView {
        LedgerView {
            count: self.state.count as int,
            owner: self.state.owner@,
            donation_denom: self.donation_denom@,
            balances: self.deposits@,
        }
    }
}

} // verus!
