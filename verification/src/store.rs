//! Keyed in-memory storage whose calls fail on a schedule.
//!
//! A [`Table`] keeps rows under distinct integer keys and a [`Ledger`] hands out
//! the keys itself. Both answer every call from a [`FaultPlan`] first, so that a
//! caller can be exercised against any pattern of storage failures and still be
//! described exactly.

use vstd::prelude::*;

verus! {

/// Why a storage call did not take effect.
#[derive(Clone, Copy, PartialEq, Eq, Debug)]
pub enum StoreFault {
    /// The store did not answer: an outage or a timeout.
    Unavailable,
    /// The store answered and refused the write.
    Rejected,
}

/// Whether the next call against a store with the schedule `plan` fails.
pub open spec fn fails_next(plan: Seq<bool>) -> bool {
    plan.len() > 0 && plan[0]
}

/// The schedule that is left once one call has been answered from `plan`.
pub open spec fn after_call(plan: Seq<bool>) -> Seq<bool> {
    if plan.len() > 0 {
        plan.drop_first()
    } else {
        plan
    }
}

/// Whether the `n`-th call from now (counted from zero) fails under `plan`.
pub open spec fn fails_at(plan: Seq<bool>, n: int) -> bool {
    0 <= n < plan.len() && plan[n]
}

/// Whether the next `calls` calls all succeed under `plan`.
pub open spec fn calm(plan: Seq<bool>, calls: int) -> bool {
    forall|n: int| 0 <= n < calls ==> !fails_at(plan, n)
}

/// Whether at most one of the next `calls` calls fails under `plan`.
pub open spec fn at_most_one_fails(plan: Seq<bool>, calls: int) -> bool {
    forall|m: int, n: int| 0 <= m < n < calls ==> !(fails_at(plan, m) && fails_at(plan, n))
}

/// The outcomes of the calls to come: `true` makes a call fail. Calls beyond the
/// end of the schedule succeed.
pub struct FaultPlan {
    outcomes: Vec<bool>,
    served: usize,
}

impl View for FaultPlan {
    type V = Seq<bool>;

    closed spec fn view(&self) -> Seq<bool> {
        if self.served <= self.outcomes@.len() {
            self.outcomes@.skip(self.served as int)
        } else {
            Seq::empty()
        }
    }
}

impl FaultPlan {
    /// A schedule under which every call succeeds.
    pub fn none() -> (plan: FaultPlan)
        ensures
            plan@ == Seq::<bool>::empty(),
    {
        FaultPlan { outcomes: Vec::new(), served: 0 }
    }

    /// The schedule that answers the first call from `outcomes[0]`, the second
    /// from `outcomes[1]`, and so on.
    pub fn scheduled(outcomes: Vec<bool>) -> (plan: FaultPlan)
        ensures
            plan@ == outcomes@,
    {
        FaultPlan { outcomes, served: 0 }
    }

    /// Answers one call: returns whether it fails and moves on in the schedule.
    pub fn draw(&mut self) -> (failed: bool)
        ensures
            failed == fails_next(old(self)@),
            final(self)@ == after_call(old(self)@),
    {
        if self.served < self.outcomes.len() {
            let failed = self.outcomes[self.served];
            self.served = self.served + 1;
            assert(self@ =~= after_call(old(self)@));
            failed
        } else {
            assert(self@ =~= after_call(old(self)@));
            false
        }
    }
}

/// A row that a table can keep: it has an integer key and belongs to users.
pub trait Entry: Sized {
    /// The key under which the row is kept.
    spec fn key(&self) -> i32;

    /// The row with its key replaced by `key`.
    spec fn keyed(self, key: i32) -> Self;

    /// Whether the row is one of the user's.
    spec fn concerns(&self, user_id: i32) -> bool;

    /// Replacing the key does what it says.
    proof fn keyed_has_key(self, key: i32)
        ensures
            self.keyed(key).key() == key,
    ;

    /// The key under which the row is kept.
    fn id(&self) -> (key: i32)
        ensures
            key == self.key(),
    ;

    /// The row with its key replaced by `key`.
    fn with_id(self, key: i32) -> (row: Self)
        ensures
            row == self.keyed(key),
    ;

    /// Whether the row is one of the user's.
    fn belongs_to(&self, user_id: i32) -> (yes: bool)
        ensures
            yes == self.concerns(user_id),
    ;

    /// A copy of the row, equal to it in every field.
    fn duplicate(&self) -> (row: Self)
        ensures
            row == *self,
    ;
}

/// Whether some row of `rows` has the key.
pub open spec fn holds<R: Entry>(rows: Seq<R>, key: i32) -> bool {
    exists|i: int| 0 <= i < rows.len() && #[trigger] rows[i].key() == key
}

/// The position of a row with the key, where there is one.
pub open spec fn index_of<R: Entry>(rows: Seq<R>, key: i32) -> int {
    choose|i: int| 0 <= i < rows.len() && #[trigger] rows[i].key() == key
}

/// The row kept under the key, if any.
pub open spec fn lookup<R: Entry>(rows: Seq<R>, key: i32) -> Option<R> {
    if holds(rows, key) {
        Some(rows[index_of(rows, key)])
    } else {
        None
    }
}

/// No two rows share a key.
pub open spec fn distinct_keys<R: Entry>(rows: Seq<R>) -> bool {
    forall|i: int, j: int|
        0 <= i < j < rows.len() ==> #[trigger] rows[i].key() != #[trigger] rows[j].key()
}

/// Every key is below `bound`.
pub open spec fn keys_below<R: Entry>(rows: Seq<R>, bound: i32) -> bool {
    forall|i: int| 0 <= i < rows.len() ==> #[trigger] rows[i].key() < bound
}

/// The rows of one user, in the order in which they are kept.
pub open spec fn rows_of<R: Entry>(rows: Seq<R>, user_id: i32) -> Seq<R> {
    rows.filter(|row: R| row.concerns(user_id))
}

/// With distinct keys, the row at a position is the one found under its key.
pub proof fn lemma_lookup_at<R: Entry>(rows: Seq<R>, i: int)
    requires
        distinct_keys(rows),
        0 <= i < rows.len(),
    ensures
        holds(rows, rows[i].key()),
        index_of(rows, rows[i].key()) == i,
        lookup(rows, rows[i].key()) == Some(rows[i]),
{
    let key = rows[i].key();
    let j = index_of(rows, key);
    assert(0 <= j < rows.len() && rows[j].key() == key);
    if j < i {
        assert(rows[j].key() != rows[i].key());
    } else if i < j {
        assert(rows[i].key() != rows[j].key());
    }
}

/// A row appended under a new key is found under it, and no other lookup changes.
pub proof fn lemma_lookup_push<R: Entry>(rows: Seq<R>, row: R)
    requires
        distinct_keys(rows),
        !holds(rows, row.key()),
    ensures
        distinct_keys(rows.push(row)),
        index_of(rows.push(row), row.key()) == rows.len(),
        forall|key: i32| #[trigger]
            lookup(rows.push(row), key) == if key == row.key() {
                Some(row)
            } else {
                lookup(rows, key)
            },
{
    let grown = rows.push(row);
    assert forall|i: int, j: int| 0 <= i < j < grown.len() implies #[trigger] grown[i].key()
        != #[trigger] grown[j].key() by {
        if j == rows.len() {
            assert(rows[i].key() != row.key());
        } else {
            assert(rows[i].key() != rows[j].key());
        }
    }
    assert(grown[rows.len() as int] == row);
    lemma_lookup_at(grown, rows.len() as int);
    assert forall|key: i32| #[trigger]
        lookup(grown, key) == if key == row.key() {
            Some(row)
        } else {
            lookup(rows, key)
        } by {
        if key != row.key() {
            if holds(rows, key) {
                let i = index_of(rows, key);
                assert(grown[i] == rows[i]);
                lemma_lookup_at(grown, i);
            } else if holds(grown, key) {
                let i = index_of(grown, key);
                assert(i < rows.len());
                assert(rows[i].key() == key);
            }
        }
    }
}

/// A row written over the one with its key is found under it, and no other
/// lookup changes.
pub proof fn lemma_lookup_update<R: Entry>(rows: Seq<R>, row: R)
    requires
        distinct_keys(rows),
        holds(rows, row.key()),
    ensures
        distinct_keys(rows.update(index_of(rows, row.key()), row)),
        index_of(rows.update(index_of(rows, row.key()), row), row.key()) == index_of(
            rows,
            row.key(),
        ),
        forall|key: i32| #[trigger]
            lookup(rows.update(index_of(rows, row.key()), row), key) == if key == row.key() {
                Some(row)
            } else {
                lookup(rows, key)
            },
{
    let at = index_of(rows, row.key());
    let changed = rows.update(at, row);
    assert forall|i: int, j: int| 0 <= i < j < changed.len() implies #[trigger] changed[i].key()
        != #[trigger] changed[j].key() by {
        assert(rows[i].key() != rows[j].key());
    }
    assert(changed[at] == row);
    lemma_lookup_at(changed, at);
    assert forall|key: i32| #[trigger]
        lookup(changed, key) == if key == row.key() {
            Some(row)
        } else {
            lookup(rows, key)
        } by {
        if key != row.key() {
            if holds(rows, key) {
                let i = index_of(rows, key);
                assert(changed[i] == rows[i]);
                lemma_lookup_at(changed, i);
            } else if holds(changed, key) {
                let i = index_of(changed, key);
                assert(rows[i].key() == key);
            }
        }
    }
}

/// Once the row under a key is removed nothing is found under it, and no other
/// lookup changes.
pub proof fn lemma_lookup_remove<R: Entry>(rows: Seq<R>, key: i32)
    requires
        distinct_keys(rows),
        holds(rows, key),
    ensures
        distinct_keys(rows.remove(index_of(rows, key))),
        forall|other: i32| #[trigger]
            lookup(rows.remove(index_of(rows, key)), other) == if other == key {
                None
            } else {
                lookup(rows, other)
            },
{
    let at = index_of(rows, key);
    let fewer = rows.remove(at);
    assert forall|i: int| 0 <= i < fewer.len() implies #[trigger] fewer[i] == rows[if i < at {
        i
    } else {
        i + 1
    }] by {}
    assert forall|i: int, j: int| 0 <= i < j < fewer.len() implies #[trigger] fewer[i].key()
        != #[trigger] fewer[j].key() by {
        let a = if i < at { i } else { i + 1 };
        let b = if j < at { j } else { j + 1 };
        assert(rows[a].key() != rows[b].key());
    }
    assert forall|other: i32| #[trigger]
        lookup(fewer, other) == if other == key {
            None
        } else {
            lookup(rows, other)
        } by {
        if other == key {
            if holds(fewer, key) {
                let i = index_of(fewer, key);
                let a = if i < at { i } else { i + 1 };
                assert(fewer[i] == rows[a]);
                lemma_lookup_at(rows, a);
            }
        } else {
            if holds(rows, other) {
                let a = index_of(rows, other);
                let i = if a < at { a } else { a - 1 };
                assert(fewer[i] == rows[a]);
                lemma_lookup_at(fewer, i);
            } else if holds(fewer, other) {
                let i = index_of(fewer, other);
                let a = if i < at { i } else { i + 1 };
                assert(rows[a].key() == other);
            }
        }
    }
}

/// What a table holds, and the failures that are scheduled for it.
pub struct TableView<R> {
    pub rows: Seq<R>,
    pub faults: Seq<bool>,
}

impl<R: Entry> TableView<R> {
    /// The keys are distinct.
    pub open spec fn wf(self) -> bool {
        distinct_keys(self.rows)
    }

    /// The table after a call that changed no row.
    pub open spec fn served(self) -> TableView<R> {
        TableView { rows: self.rows, faults: after_call(self.faults) }
    }

    /// The table after a call that left it with `rows`.
    pub open spec fn served_with(self, rows: Seq<R>) -> TableView<R> {
        TableView { rows, faults: after_call(self.faults) }
    }

    /// Reading the row under a key.
    pub open spec fn get(self, key: i32) -> (TableView<R>, Result<Option<R>, StoreFault>) {
        if fails_next(self.faults) {
            (self.served(), Err(StoreFault::Unavailable))
        } else {
            (self.served(), Ok(lookup(self.rows, key)))
        }
    }

    /// Adding a row: refused where its key is taken.
    pub open spec fn insert(self, row: R) -> (TableView<R>, Result<(), StoreFault>) {
        if fails_next(self.faults) {
            (self.served(), Err(StoreFault::Unavailable))
        } else if holds(self.rows, row.key()) {
            (self.served(), Err(StoreFault::Rejected))
        } else {
            (self.served_with(self.rows.push(row)), Ok(()))
        }
    }

    /// Writing a row over the one with its key: refused where there is none.
    pub open spec fn replace(self, row: R) -> (TableView<R>, Result<(), StoreFault>) {
        if fails_next(self.faults) {
            (self.served(), Err(StoreFault::Unavailable))
        } else if !holds(self.rows, row.key()) {
            (self.served(), Err(StoreFault::Rejected))
        } else {
            (self.served_with(self.rows.update(index_of(self.rows, row.key()), row)), Ok(()))
        }
    }

    /// Removing the row under a key. Removing what is not there succeeds too.
    pub open spec fn remove(self, key: i32) -> (TableView<R>, Result<(), StoreFault>) {
        if fails_next(self.faults) {
            (self.served(), Err(StoreFault::Unavailable))
        } else if !holds(self.rows, key) {
            (self.served(), Ok(()))
        } else {
            (self.served_with(self.rows.remove(index_of(self.rows, key))), Ok(()))
        }
    }

    /// Listing the rows of one user.
    pub open spec fn list(self, user_id: i32) -> (TableView<R>, Result<Seq<R>, StoreFault>) {
        if fails_next(self.faults) {
            (self.served(), Err(StoreFault::Unavailable))
        } else {
            (self.served(), Ok(rows_of(self.rows, user_id)))
        }
    }

    /// Listing every row.
    pub open spec fn all(self) -> (TableView<R>, Result<Seq<R>, StoreFault>) {
        if fails_next(self.faults) {
            (self.served(), Err(StoreFault::Unavailable))
        } else {
            (self.served(), Ok(self.rows))
        }
    }
}

/// Rows under distinct keys, in the order in which they were added.
pub struct Table<R: Entry> {
    rows: Vec<R>,
    faults: FaultPlan,
}

impl<R: Entry> View for Table<R> {
    type V = TableView<R>;

    closed spec fn view(&self) -> TableView<R> {
        TableView { rows: self.rows@, faults: self.faults@ }
    }
}

impl<R: Entry> Table<R> {
    /// The table's invariant: see [`TableView::wf`].
    pub open spec fn wf(&self) -> bool {
        self@.wf()
    }

    /// An empty table that never fails.
    pub fn new() -> (table: Table<R>)
        ensures
            table.wf(),
            table@.rows == Seq::<R>::empty(),
            table@.faults == Seq::<bool>::empty(),
    {
        Table { rows: Vec::new(), faults: FaultPlan::none() }
    }

    /// Replaces the schedule of failures; the rows stay.
    pub fn set_faults(&mut self, plan: Vec<bool>)
        ensures
            final(self)@.rows == old(self)@.rows,
            final(self)@.faults == plan@,
    {
        self.faults = FaultPlan::scheduled(plan);
    }

    /// The number of rows.
    pub fn len(&self) -> (n: usize)
        ensures
            n == self@.rows.len(),
    {
        self.rows.len()
    }

    fn position(&self, key: i32) -> (found: Option<usize>)
        requires
            self.wf(),
        ensures
            match found {
                Some(at) => holds(self@.rows, key) && at as int == index_of(self@.rows, key)
                    && at < self@.rows.len() as usize,
                None => !holds(self@.rows, key),
            },
    {
        let mut at: usize = 0;
        while at < self.rows.len()
            invariant
                self.wf(),
                at <= self.rows@.len(),
                forall|i: int| 0 <= i < at ==> #[trigger] self.rows@[i].key() != key,
            decreases self.rows@.len() - at,
        {
            if self.rows[at].id() == key {
                proof {
                    lemma_lookup_at(self.rows@, at as int);
                }
                return Some(at);
            }
            at = at + 1;
        }
        None
    }

    /// Reads the row under a key without counting as a call: it cannot fail.
    pub fn peek(&self, key: i32) -> (found: Option<R>)
        requires
            self.wf(),
        ensures
            found == lookup(self@.rows, key),
    {
        match self.position(key) {
            Some(at) => Some(self.rows[at].duplicate()),
            None => None,
        }
    }

    /// Reads the row under a key.
    pub fn get(&mut self, key: i32) -> (found: Result<Option<R>, StoreFault>)
        requires
            old(self).wf(),
        ensures
            final(self).wf(),
            (final(self)@, found) == old(self)@.get(key),
    {
        if self.faults.draw() {
            return Err(StoreFault::Unavailable);
        }
        Ok(self.peek(key))
    }

    /// Adds a row under a key that is not taken.
    pub fn insert(&mut self, row: R) -> (done: Result<(), StoreFault>)
        requires
            old(self).wf(),
        ensures
            final(self).wf(),
            (final(self)@, done) == old(self)@.insert(row),
    {
        if self.faults.draw() {
            return Err(StoreFault::Unavailable);
        }
        match self.position(row.id()) {
            Some(_) => Err(StoreFault::Rejected),
            None => {
                proof {
                    lemma_lookup_push(self.rows@, row);
                }
                self.rows.push(row);
                Ok(())
            },
        }
    }

    /// Writes a row over the one that has its key.
    pub fn replace(&mut self, row: R) -> (done: Result<(), StoreFault>)
        requires
            old(self).wf(),
        ensures
            final(self).wf(),
            (final(self)@, done) == old(self)@.replace(row),
    {
        if self.faults.draw() {
            return Err(StoreFault::Unavailable);
        }
        match self.position(row.id()) {
            Some(at) => {
                proof {
                    lemma_lookup_update(self.rows@, row);
                }
                self.rows.set(at, row);
                Ok(())
            },
            None => Err(StoreFault::Rejected),
        }
    }

    /// Removes the row under a key, if there is one.
    pub fn remove(&mut self, key: i32) -> (done: Result<(), StoreFault>)
        requires
            old(self).wf(),
        ensures
            final(self).wf(),
            (final(self)@, done) == old(self)@.remove(key),
    {
        if self.faults.draw() {
            return Err(StoreFault::Unavailable);
        }
        match self.position(key) {
            Some(at) => {
                proof {
                    lemma_lookup_remove(self.rows@, key);
                }
                let _ = self.rows.remove(at);
                Ok(())
            },
            None => Ok(()),
        }
    }

    /// Lists the rows of one user, oldest first.
    pub fn list(&mut self, user_id: i32) -> (found: Result<Vec<R>, StoreFault>)
        requires
            old(self).wf(),
        ensures
            final(self).wf(),
            final(self)@ == old(self)@.list(user_id).0,
            match old(self)@.list(user_id).1 {
                Ok(rows) => found is Ok && found->Ok_0@ == rows,
                Err(fault) => found == Err::<Vec<R>, StoreFault>(fault),
            },
    {
        if self.faults.draw() {
            return Err(StoreFault::Unavailable);
        }
        let mut out: Vec<R> = Vec::new();
        let mut at: usize = 0;
        assert(self.rows@.take(0) =~= Seq::<R>::empty());
        while at < self.rows.len()
            invariant
                at <= self.rows@.len(),
                out@ == rows_of(self.rows@.take(at as int), user_id),
            decreases self.rows@.len() - at,
        {
            proof {
                let longer = self.rows@.take(at + 1);
                assert(longer.drop_last() =~= self.rows@.take(at as int));
                assert(longer.last() == self.rows@[at as int]);
                reveal_with_fuel(Seq::filter, 2);
            }
            if self.rows[at].belongs_to(user_id) {
                out.push(self.rows[at].duplicate());
            }
            at = at + 1;
        }
        assert(self.rows@.take(at as int) =~= self.rows@);
        Ok(out)
    }

    /// Lists every row, oldest first.
    pub fn all(&mut self) -> (found: Result<Vec<R>, StoreFault>)
        requires
            old(self).wf(),
        ensures
            final(self).wf(),
            final(self)@ == old(self)@.all().0,
            match old(self)@.all().1 {
                Ok(rows) => found is Ok && found->Ok_0@ == rows,
                Err(fault) => found == Err::<Vec<R>, StoreFault>(fault),
            },
    {
        if self.faults.draw() {
            return Err(StoreFault::Unavailable);
        }
        let mut out: Vec<R> = Vec::new();
        let mut at: usize = 0;
        while at < self.rows.len()
            invariant
                at <= self.rows@.len(),
                out@ == self.rows@.take(at as int),
            decreases self.rows@.len() - at,
        {
            out.push(self.rows[at].duplicate());
            at = at + 1;
            assert(out@ =~= self.rows@.take(at as int));
        }
        assert(self.rows@.take(at as int) =~= self.rows@);
        Ok(out)
    }
}

/// Appending a row and then removing what is kept under its key gives the rows
/// back as they were.
pub proof fn lemma_push_then_remove<R: Entry>(rows: Seq<R>, row: R)
    requires
        distinct_keys(rows),
        !holds(rows, row.key()),
    ensures
        holds(rows.push(row), row.key()),
        rows.push(row).remove(index_of(rows.push(row), row.key())) == rows,
{
    lemma_lookup_push(rows, row);
    assert(rows.push(row)[rows.len() as int].key() == row.key());
    assert(rows.push(row).remove(rows.len() as int) =~= rows);
}

/// Writing a row over another and then writing the other one back gives the
/// rows back as they were.
pub proof fn lemma_update_then_restore<R: Entry>(rows: Seq<R>, row: R, previous: R)
    requires
        distinct_keys(rows),
        lookup(rows, row.key()) == Some(previous),
        previous.key() == row.key(),
    ensures
        holds(rows.update(index_of(rows, row.key()), row), previous.key()),
        rows.update(index_of(rows, row.key()), row).update(
            index_of(rows.update(index_of(rows, row.key()), row), previous.key()),
            previous,
        ) == rows,
{
    let at = index_of(rows, row.key());
    lemma_lookup_update(rows, row);
    let changed = rows.update(at, row);
    assert(changed[at].key() == previous.key());
    assert(changed.update(at, previous) =~= rows);
}

/// What a ledger holds, the failures scheduled for it, and the key that it
/// hands out next.
pub struct LedgerView<R> {
    pub table: TableView<R>,
    pub next_id: i32,
}

impl<R: Entry> LedgerView<R> {
    /// The keys are distinct and all of them were handed out before.
    pub open spec fn wf(self) -> bool {
        &&& self.table.wf()
        &&& keys_below(self.table.rows, self.next_id)
    }

    /// The rows that the ledger holds.
    pub open spec fn rows(self) -> Seq<R> {
        self.table.rows
    }

    /// The failures scheduled for the ledger.
    pub open spec fn faults(self) -> Seq<bool> {
        self.table.faults
    }

    /// The ledger after a call that changed no row.
    pub open spec fn served(self) -> LedgerView<R> {
        LedgerView { table: self.table.served(), next_id: self.next_id }
    }

    /// Recording a new row under the next key: refused once the keys have run
    /// out.
    pub open spec fn create(self, draft: R) -> (LedgerView<R>, Result<R, StoreFault>) {
        let row = draft.keyed(self.next_id);
        if fails_next(self.table.faults) {
            (self.served(), Err(StoreFault::Unavailable))
        } else if self.next_id == i32::MAX {
            (self.served(), Err(StoreFault::Rejected))
        } else {
            (
                LedgerView {
                    table: self.table.served_with(self.table.rows.push(row)),
                    next_id: (self.next_id + 1) as i32,
                },
                Ok(row),
            )
        }
    }

    /// Writing a row over the one with its key: refused where there is none.
    pub open spec fn update(self, row: R) -> (LedgerView<R>, Result<R, StoreFault>) {
        let (table, done) = self.table.replace(row);
        (
            LedgerView { table, next_id: self.next_id },
            match done {
                Ok(_) => Ok(row),
                Err(fault) => Err(fault),
            },
        )
    }

    /// Removing the row under a key.
    pub open spec fn delete(self, key: i32) -> (LedgerView<R>, Result<(), StoreFault>) {
        let (table, done) = self.table.remove(key);
        (LedgerView { table, next_id: self.next_id }, done)
    }

    /// Reading the row under a key.
    pub open spec fn get(self, key: i32) -> (LedgerView<R>, Result<Option<R>, StoreFault>) {
        let (table, found) = self.table.get(key);
        (LedgerView { table, next_id: self.next_id }, found)
    }

    /// Listing the rows of one user.
    pub open spec fn list(self, user_id: i32) -> (LedgerView<R>, Result<Seq<R>, StoreFault>) {
        let (table, found) = self.table.list(user_id);
        (LedgerView { table, next_id: self.next_id }, found)
    }

    /// Listing every row.
    pub open spec fn all(self) -> (LedgerView<R>, Result<Seq<R>, StoreFault>) {
        let (table, found) = self.table.all();
        (LedgerView { table, next_id: self.next_id }, found)
    }
}

/// An append-mostly record of events, each under a key that the ledger chose.
pub struct Ledger<R: Entry> {
    table: Table<R>,
    next_id: i32,
}

impl<R: Entry> View for Ledger<R> {
    type V = LedgerView<R>;

    closed spec fn view(&self) -> LedgerView<R> {
        LedgerView { table: self.table@, next_id: self.next_id }
    }
}

impl<R: Entry> Ledger<R> {
    /// The ledger's invariant: see [`LedgerView::wf`].
    pub open spec fn wf(&self) -> bool {
        self@.wf()
    }

    /// An empty ledger that never fails and hands out the key 1 first.
    pub fn new() -> (ledger: Ledger<R>)
        ensures
            ledger.wf(),
            ledger@.table.rows == Seq::<R>::empty(),
            ledger@.table.faults == Seq::<bool>::empty(),
            ledger@.next_id == 1,
    {
        Ledger { table: Table::new(), next_id: 1 }
    }

    /// Replaces the schedule of failures; the rows and the next key stay.
    pub fn set_faults(&mut self, plan: Vec<bool>)
        ensures
            final(self)@.table.rows == old(self)@.table.rows,
            final(self)@.table.faults == plan@,
            final(self)@.next_id == old(self)@.next_id,
    {
        self.table.set_faults(plan);
    }

    /// The number of rows.
    pub fn len(&self) -> (n: usize)
        ensures
            n == self@.table.rows.len(),
    {
        self.table.len()
    }

    /// Reads the row under a key without counting as a call: it cannot fail.
    pub fn peek(&self, key: i32) -> (found: Option<R>)
        requires
            self.wf(),
        ensures
            found == lookup(self@.table.rows, key),
    {
        self.table.peek(key)
    }

    /// Records `draft` under the next key and returns the row as recorded.
    pub fn create(&mut self, draft: R) -> (made: Result<R, StoreFault>)
        requires
            old(self).wf(),
        ensures
            final(self).wf(),
            (final(self)@, made) == old(self)@.create(draft),
    {
        if self.table.faults.draw() {
            return Err(StoreFault::Unavailable);
        }
        if self.next_id == i32::MAX {
            return Err(StoreFault::Rejected);
        }
        let row = draft.with_id(self.next_id);
        let copy = row.duplicate();
        proof {
            draft.keyed_has_key(self.next_id);
            assert(!holds(self.table.rows@, row.key())) by {
                if holds(self.table.rows@, row.key()) {
                    let i = index_of(self.table.rows@, row.key());
                    assert(self.table.rows@[i].key() < self.next_id);
                }
            }
            lemma_lookup_push(self.table.rows@, row);
        }
        self.table.rows.push(row);
        self.next_id = self.next_id + 1;
        Ok(copy)
    }

    /// Writes a row over the one that has its key and returns it.
    pub fn update(&mut self, row: R) -> (made: Result<R, StoreFault>)
        requires
            old(self).wf(),
        ensures
            final(self).wf(),
            (final(self)@, made) == old(self)@.update(row),
    {
        let copy = row.duplicate();
        proof {
            if !fails_next(self.table@.faults) && holds(self.table@.rows, row.key()) {
                let at = index_of(self.table@.rows, row.key());
                assert(self.table@.rows[at].key() == row.key());
            }
        }
        match self.table.replace(row) {
            Ok(_) => Ok(copy),
            Err(fault) => Err(fault),
        }
    }

    /// Removes the row under a key, if there is one.
    pub fn delete(&mut self, key: i32) -> (done: Result<(), StoreFault>)
        requires
            old(self).wf(),
        ensures
            final(self).wf(),
            (final(self)@, done) == old(self)@.delete(key),
    {
        self.table.remove(key)
    }

    /// Reads the row under a key.
    pub fn get(&mut self, key: i32) -> (found: Result<Option<R>, StoreFault>)
        requires
            old(self).wf(),
        ensures
            final(self).wf(),
            (final(self)@, found) == old(self)@.get(key),
    {
        self.table.get(key)
    }

    /// Lists the rows of one user, oldest first.
    pub fn list(&mut self, user_id: i32) -> (found: Result<Vec<R>, StoreFault>)
        requires
            old(self).wf(),
        ensures
            final(self).wf(),
            final(self)@ == old(self)@.list(user_id).0,
            match old(self)@.list(user_id).1 {
                Ok(rows) => found is Ok && found->Ok_0@ == rows,
                Err(fault) => found == Err::<Vec<R>, StoreFault>(fault),
            },
    {
        self.table.list(user_id)
    }

    /// Lists every row, oldest first.
    pub fn all(&mut self) -> (found: Result<Vec<R>, StoreFault>)
        requires
            old(self).wf(),
        ensures
            final(self).wf(),
            final(self)@ == old(self)@.all().0,
            match old(self)@.all().1 {
                Ok(rows) => found is Ok && found->Ok_0@ == rows,
                Err(fault) => found == Err::<Vec<R>, StoreFault>(fault),
            },
    {
        self.table.all()
    }
}

/// `now` is `before` with `row` appended under a key that was free.
pub open spec fn appended<R: Entry>(before: Seq<R>, now: Seq<R>, row: R) -> bool {
    &&& !holds(before, row.key())
    &&& now == before.push(row)
}

/// `now` is `before` with `row` written over `previous`, which had its key.
pub open spec fn overwritten<R: Entry>(before: Seq<R>, now: Seq<R>, row: R, previous: R) -> bool {
    &&& previous.key() == row.key()
    &&& lookup(before, row.key()) == Some(previous)
    &&& now == before.update(index_of(before, row.key()), row)
}

/// Adding a row to a table: it goes through exactly where the table answers
/// and the key is free, and then the row is found and no other lookup changes.
pub proof fn lemma_insert<R: Entry>(table: TableView<R>, row: R)
    requires
        table.wf(),
    ensures
        ({
            let (after, done) = table.insert(row);
            &&& after.wf()
            &&& after.faults == after_call(table.faults)
            &&& done is Ok <==> !fails_next(table.faults) && !holds(table.rows, row.key())
            &&& done is Ok ==> after.rows == table.rows.push(row) && lookup(after.rows, row.key())
                == Some(row)
            &&& done is Err ==> after.rows == table.rows
        }),
{
    if !fails_next(table.faults) && !holds(table.rows, row.key()) {
        lemma_lookup_push(table.rows, row);
    }
}

/// Writing a row over another: it goes through exactly where the table
/// answers and holds a row with the key, and then the row is found and no
/// other lookup changes.
pub proof fn lemma_replace<R: Entry>(table: TableView<R>, row: R)
    requires
        table.wf(),
    ensures
        ({
            let (after, done) = table.replace(row);
            &&& after.wf()
            &&& after.faults == after_call(table.faults)
            &&& done is Ok <==> !fails_next(table.faults) && holds(table.rows, row.key())
            &&& done is Ok ==> overwritten(
                table.rows,
                after.rows,
                row,
                lookup(table.rows, row.key())->Some_0,
            ) && lookup(after.rows, row.key()) == Some(row)
            &&& done is Err ==> after.rows == table.rows
        }),
{
    if !fails_next(table.faults) && holds(table.rows, row.key()) {
        lemma_lookup_update(table.rows, row);
        let at = index_of(table.rows, row.key());
        assert(table.rows[at].key() == row.key());
    }
}

/// Recording a row in a ledger: it goes through exactly where the ledger
/// answers and has a key left, and then the row stands at the end under the
/// key that was next.
pub proof fn lemma_create<R: Entry>(ledger: LedgerView<R>, draft: R)
    requires
        ledger.wf(),
    ensures
        ({
            let (after, made) = ledger.create(draft);
            let row = draft.keyed(ledger.next_id);
            &&& after.wf()
            &&& after.faults() == after_call(ledger.faults())
            &&& row.key() == ledger.next_id
            &&& !holds(ledger.rows(), ledger.next_id)
            &&& made is Ok <==> !fails_next(ledger.faults()) && ledger.next_id < i32::MAX
            &&& made is Ok ==> {
                &&& made == Ok::<R, StoreFault>(row)
                &&& appended(ledger.rows(), after.rows(), row)
                &&& lookup(after.rows(), row.key()) == Some(row)
                &&& after.next_id == ledger.next_id + 1
            }
            &&& made is Err ==> after.rows() == ledger.rows() && after.next_id == ledger.next_id
        }),
{
    let row = draft.keyed(ledger.next_id);
    draft.keyed_has_key(ledger.next_id);
    assert(!holds(ledger.rows(), ledger.next_id)) by {
        if holds(ledger.rows(), ledger.next_id) {
            let i = index_of(ledger.rows(), ledger.next_id);
            assert(ledger.rows()[i].key() < ledger.next_id);
        }
    }
    if !fails_next(ledger.faults()) && ledger.next_id < i32::MAX {
        lemma_lookup_push(ledger.rows(), row);
        let after = ledger.create(draft).0;
        assert forall|i: int| 0 <= i < after.rows().len() implies (#[trigger] after.rows()[i]).key()
            < after.next_id by {
            if i < ledger.rows().len() {
                assert(ledger.rows()[i].key() < ledger.next_id);
            }
        }
    }
}

/// Writing a row over another in a ledger: it goes through exactly where the
/// ledger answers and holds a row with the key.
pub proof fn lemma_update<R: Entry>(ledger: LedgerView<R>, row: R)
    requires
        ledger.wf(),
    ensures
        ({
            let (after, made) = ledger.update(row);
            &&& after.wf()
            &&& after.faults() == after_call(ledger.faults())
            &&& after.next_id == ledger.next_id
            &&& made is Ok <==> !fails_next(ledger.faults()) && holds(ledger.rows(), row.key())
            &&& made is Ok ==> {
                &&& made == Ok::<R, StoreFault>(row)
                &&& overwritten(
                    ledger.rows(),
                    after.rows(),
                    row,
                    lookup(ledger.rows(), row.key())->Some_0,
                )
                &&& lookup(after.rows(), row.key()) == Some(row)
            }
            &&& made is Err ==> after.rows() == ledger.rows()
        }),
{
    lemma_replace(ledger.table, row);
    if !fails_next(ledger.faults()) && holds(ledger.rows(), row.key()) {
        let at = index_of(ledger.rows(), row.key());
        let after = ledger.update(row).0;
        assert forall|i: int| 0 <= i < after.rows().len() implies (#[trigger] after.rows()[i]).key()
            < after.next_id by {
            if i != at {
                assert(ledger.rows()[i].key() < ledger.next_id);
            } else {
                assert(ledger.rows()[at].key() < ledger.next_id);
            }
        }
    }
}

/// Removing a row from a ledger: it goes through exactly where the ledger
/// answers, and then nothing is found under the key and no other lookup
/// changes.
pub proof fn lemma_delete<R: Entry>(ledger: LedgerView<R>, key: i32)
    requires
        ledger.wf(),
    ensures
        ({
            let (after, done) = ledger.delete(key);
            &&& after.wf()
            &&& after.faults() == after_call(ledger.faults())
            &&& after.next_id == ledger.next_id
            &&& done is Ok <==> !fails_next(ledger.faults())
            &&& done is Ok ==> {
                &&& lookup(after.rows(), key) is None
                &&& forall|other: i32|
                    other != key ==> #[trigger] lookup(after.rows(), other) == lookup(
                        ledger.rows(),
                        other,
                    )
                &&& after.rows() == if holds(ledger.rows(), key) {
                    ledger.rows().remove(index_of(ledger.rows(), key))
                } else {
                    ledger.rows()
                }
            }
            &&& done is Err ==> after.rows() == ledger.rows()
        }),
{
    if !fails_next(ledger.faults()) && holds(ledger.rows(), key) {
        lemma_lookup_remove(ledger.rows(), key);
        let at = index_of(ledger.rows(), key);
        let after = ledger.delete(key).0;
        assert forall|i: int| 0 <= i < after.rows().len() implies (#[trigger] after.rows()[i]).key()
            < after.next_id by {
            let a = if i < at {
                i
            } else {
                i + 1
            };
            assert(ledger.rows()[a].key() < ledger.next_id);
        }
    }
}

/// Deleting the row that was appended last takes the ledger back to what it
/// held before, where the ledger answers.
pub proof fn lemma_delete_undoes_create<R: Entry>(before: Seq<R>, ledger: LedgerView<R>, row: R)
    requires
        distinct_keys(before),
        ledger.wf(),
        appended(before, ledger.rows(), row),
    ensures
        ({
            let (after, done) = ledger.delete(row.key());
            &&& after.wf()
            &&& after.faults() == after_call(ledger.faults())
            &&& after.next_id == ledger.next_id
            &&& done is Ok <==> !fails_next(ledger.faults())
            &&& done is Ok ==> after.rows() == before
        }),
{
    lemma_delete(ledger, row.key());
    lemma_push_then_remove(before, row);
}

/// Writing back the row that was overwritten takes the ledger back to what it
/// held before, where the ledger answers.
pub proof fn lemma_update_undoes_update<R: Entry>(
    before: Seq<R>,
    ledger: LedgerView<R>,
    row: R,
    previous: R,
)
    requires
        distinct_keys(before),
        ledger.wf(),
        overwritten(before, ledger.rows(), row, previous),
    ensures
        ({
            let (after, made) = ledger.update(previous);
            &&& after.wf()
            &&& after.faults() == after_call(ledger.faults())
            &&& after.next_id == ledger.next_id
            &&& made is Ok <==> !fails_next(ledger.faults())
            &&& made is Ok ==> after.rows() == before
        }),
{
    lemma_update(ledger, previous);
    lemma_update_then_restore(before, row, previous);
}

} // verus!
