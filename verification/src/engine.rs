//! The shared key/value engine all stores write through.
//!
//! The engine multiplexes [`crate::columns::NUM_COLUMNS`] logical columns
//! onto one store of raw byte keys and values. Its contents are modelled as
//! a map from (column, key) to value; batches are applied atomically: a
//! commit either applies every operation of its transaction or, when the
//! engine refuses it, changes nothing at all.
//!
//! This type holds the engine contents themselves. Persisting them on disk
//! (and loading them back on startup) is the embedding application's work;
//! the backend hands the contents out and accepts them back unchanged.

use crate::columns::NUM_COLUMNS;
use crate::error::DbError;
use vstd::prelude::*;
use vstd::slice::slice_to_vec;

verus! {

/// The engine contents as the contracts speak of them: a map from
/// (column, key bytes) to value bytes.
pub type EngineView = Map<(int, Seq<u8>), Seq<u8>>;

/// One record held by the engine.
#[derive(Debug)]
pub struct DbEntry {
    pub col: u32,
    pub key: Vec<u8>,
    pub value: Vec<u8>,
}

/// The (column, key) pair under which an entry stands in the engine view.
pub open spec fn entry_key(e: DbEntry) -> (int, Seq<u8>) {
    (e.col as int, e.key@)
}

/// The view of a sequence of records: later records win, though the engine
/// keeps at most one record per (column, key).
pub open spec fn entries_view(s: Seq<DbEntry>) -> EngineView
    decreases s.len(),
{
    if s.len() == 0 {
        Map::empty()
    } else {
        entries_view(s.drop_last()).insert(entry_key(s.last()), s.last().value@)
    }
}

/// No two records share a (column, key) pair.
pub open spec fn entry_keys_distinct(s: Seq<DbEntry>) -> bool {
    forall|i: int, j: int|
        0 <= i < j < s.len() ==> #[trigger] entry_key(s[i]) != #[trigger] entry_key(s[j])
}

/// A key is in the view exactly when some record carries it.
proof fn lemma_entries_view_domain(s: Seq<DbEntry>, k: (int, Seq<u8>))
    ensures
        entries_view(s).contains_key(k) <==> exists|i: int|
            0 <= i < s.len() && entry_key(#[trigger] s[i]) == k,
    decreases s.len(),
{
    if s.len() > 0 {
        lemma_entries_view_domain(s.drop_last(), k);
        if entries_view(s).contains_key(k) {
            if entry_key(s.last()) == k {
                assert(entry_key(s[s.len() - 1]) == k);
            } else {
                let i = choose|i: int|
                    0 <= i < s.drop_last().len() && entry_key(#[trigger] s.drop_last()[i]) == k;
                assert(entry_key(s[i]) == k);
            }
        }
        if exists|i: int| 0 <= i < s.len() && entry_key(#[trigger] s[i]) == k {
            let i = choose|i: int| 0 <= i < s.len() && entry_key(#[trigger] s[i]) == k;
            if i < s.len() - 1 {
                assert(entry_key(s.drop_last()[i]) == k);
            }
        }
    }
}

/// Each record of a distinct sequence is visible in the view.
proof fn lemma_entries_view_index(s: Seq<DbEntry>, i: int)
    requires
        entry_keys_distinct(s),
        0 <= i < s.len(),
    ensures
        entries_view(s).contains_key(entry_key(s[i])),
        entries_view(s)[entry_key(s[i])] == s[i].value@,
    decreases s.len(),
{
    if i == s.len() - 1 {
    } else {
        assert(entry_keys_distinct(s.drop_last())) by {
            assert(forall|x: int, y: int|
                0 <= x < y < s.drop_last().len() ==> entry_key(#[trigger] s.drop_last()[x])
                    != entry_key(#[trigger] s.drop_last()[y])) by {
                assert(forall|x: int|
                    0 <= x < s.drop_last().len() ==> #[trigger] s.drop_last()[x] == s[x]);
            }
        }
        lemma_entries_view_index(s.drop_last(), i);
        assert(entry_key(s[i]) != entry_key(s[s.len() - 1]));
    }
}

/// Removing the one record that carries a key removes that key from the view.
proof fn lemma_entries_view_remove(s: Seq<DbEntry>, i: int)
    requires
        entry_keys_distinct(s),
        0 <= i < s.len(),
    ensures
        entry_keys_distinct(s.remove(i)),
        entries_view(s.remove(i)) == entries_view(s).remove(entry_key(s[i])),
    decreases s.len(),
{
    assert(entry_keys_distinct(s.remove(i))) by {
        assert(forall|x: int, y: int|
            0 <= x < y < s.remove(i).len() ==> entry_key(#[trigger] s.remove(i)[x]) != entry_key(
                #[trigger] s.remove(i)[y],
            ));
    }
    let k = entry_key(s[i]);
    if i == s.len() - 1 {
        assert(s.remove(i) =~= s.drop_last());
        assert(!entries_view(s.drop_last()).contains_key(k)) by {
            lemma_entries_view_domain(s.drop_last(), k);
            assert(forall|j: int|
                0 <= j < s.drop_last().len() ==> entry_key(#[trigger] s.drop_last()[j]) != k);
        }
        assert(entries_view(s.drop_last()) =~= entries_view(s).remove(k));
    } else {
        assert(entry_keys_distinct(s.drop_last())) by {
            assert(forall|x: int|
                0 <= x < s.drop_last().len() ==> #[trigger] s.drop_last()[x] == s[x]);
        }
        lemma_entries_view_remove(s.drop_last(), i);
        assert(s.remove(i).drop_last() =~= s.drop_last().remove(i));
        assert(s.remove(i).last() == s.last());
        assert(entry_key(s.last()) != k);
        assert(entries_view(s.remove(i)) =~= entries_view(s).remove(k));
    }
}

/// Appending a record updates the view at its key.
proof fn lemma_entries_view_push(s: Seq<DbEntry>, e: DbEntry)
    ensures
        entries_view(s.push(e)) == entries_view(s).insert(entry_key(e), e.value@),
{
    assert(s.push(e).drop_last() =~= s);
}

/// One operation of a batch.
#[derive(Debug)]
pub enum DbOp {
    Put { col: u32, key: Vec<u8>, value: Vec<u8> },
    Delete { col: u32, key: Vec<u8> },
}

/// The column an operation touches.
pub open spec fn op_col(op: DbOp) -> u32 {
    match op {
        DbOp::Put { col, .. } => col,
        DbOp::Delete { col, .. } => col,
    }
}

/// The view after one operation.
pub open spec fn apply_op(v: EngineView, op: DbOp) -> EngineView {
    match op {
        DbOp::Put { col, key, value } => v.insert((col as int, key@), value@),
        DbOp::Delete { col, key } => v.remove((col as int, key@)),
    }
}

/// The view after a whole batch, applied in order.
pub open spec fn apply_ops(v: EngineView, ops: Seq<DbOp>) -> EngineView
    decreases ops.len(),
{
    if ops.len() == 0 {
        v
    } else {
        apply_op(apply_ops(v, ops.drop_last()), ops.last())
    }
}

pub proof fn lemma_apply_ops_push(v: EngineView, ops: Seq<DbOp>, op: DbOp)
    ensures
        apply_ops(v, ops.push(op)) == apply_op(apply_ops(v, ops), op),
{
    assert(ops.push(op).drop_last() =~= ops);
}

/// A batch of operations, applied to the engine as one atomic unit.
pub struct DbTransaction {
    pub ops: Vec<DbOp>,
}

impl DbTransaction {
    /// Every operation names a valid column.
    pub open spec fn wf(&self) -> bool {
        forall|i: int| 0 <= i < self.ops@.len() ==> op_col(#[trigger] self.ops@[i]) < NUM_COLUMNS
    }

    /// An empty batch.
    pub fn new() -> (r: DbTransaction)
        ensures
            r.ops@ == Seq::<DbOp>::empty(),
            r.wf(),
    {
        DbTransaction { ops: Vec::new() }
    }

    /// Queue a write of `value` under `key` in `col`.
    pub fn put(&mut self, col: u32, key: Vec<u8>, value: Vec<u8>)
        requires
            col < NUM_COLUMNS,
        ensures
            final(self).ops@ == old(self).ops@.push((DbOp::Put { col, key, value })),
            old(self).wf() ==> final(self).wf(),
    {
        self.ops.push(DbOp::Put { col, key, value });
    }

    /// Queue a removal of `key` from `col`.
    pub fn delete(&mut self, col: u32, key: Vec<u8>)
        requires
            col < NUM_COLUMNS,
        ensures
            final(self).ops@ == old(self).ops@.push((DbOp::Delete { col, key })),
            old(self).wf() ==> final(self).wf(),
    {
        self.ops.push(DbOp::Delete { col, key });
    }
}

/// Compare two byte strings.
pub fn bytes_equal(a: &[u8], b: &[u8]) -> (r: bool)
    ensures
        r == (a@ == b@),
{
    if a.len() != b.len() {
        assert(a@ != b@);
        return false;
    }
    let mut i: usize = 0;
    while i < a.len()
        invariant
            i <= a@.len(),
            a@.len() == b@.len(),
            forall|j: int| 0 <= j < i ==> a@[j] == b@[j],
        decreases a@.len() - i,
    {
        if a[i] != b[i] {
            assert(a@ != b@);
            return false;
        }
        i = i + 1;
    }
    assert(a@ =~= b@);
    true
}

/// The engine: one physical store of records, shared by every column.
pub struct MemEngine {
    entries: Vec<DbEntry>,
    commit_fault: bool,
}

impl View for MemEngine {
    type V = EngineView;

    closed spec fn view(&self) -> EngineView {
        entries_view(self.entries@)
    }
}

impl MemEngine {
    /// The engine keeps at most one record per (column, key).
    pub closed spec fn wf(&self) -> bool {
        entry_keys_distinct(self.entries@)
    }

    /// Whether the fault-injection harness will refuse the next commit.
    pub closed spec fn spec_fault(&self) -> bool {
        self.commit_fault
    }

    /// A fresh, empty engine.
    pub fn new() -> (e: MemEngine)
        ensures
            e.wf(),
            e@ == Map::<(int, Seq<u8>), Seq<u8>>::empty(),
            !e.spec_fault(),
    {
        let e = MemEngine { entries: Vec::new(), commit_fault: false };
        proof {
            assert(e.entries@.len() == 0);
        }
        e
    }

    /// Find the record holding `key` in `col`, if any.
    fn find_index(&self, col: u32, key: &[u8]) -> (r: Option<usize>)
        ensures
            match r {
                Some(i) => i < self.entries@.len() && self.entries@[i as int].col == col
                    && self.entries@[i as int].key@ == key@,
                None => forall|j: int|
                    0 <= j < self.entries@.len() ==> entry_key(#[trigger] self.entries@[j]) != (
                    col as int,
                    key@,
                ),
            },
    {
        let mut i: usize = 0;
        while i < self.entries.len()
            invariant
                i <= self.entries@.len(),
                forall|j: int|
                    0 <= j < i ==> entry_key(#[trigger] self.entries@[j]) != (col as int, key@),
            decreases self.entries@.len() - i,
        {
            let e = &self.entries[i];
            if e.col == col && bytes_equal(e.key.as_slice(), key) {
                return Some(i);
            }
            i = i + 1;
        }
        None
    }

    /// Point lookup: the value stored under `key` in `col`, if any.
    pub fn get(&self, col: u32, key: &[u8]) -> (r: Option<Vec<u8>>)
        requires
            self.wf(),
            col < NUM_COLUMNS,
        ensures
            match r {
                Some(v) => self@.contains_key((col as int, key@)) && v@ == self@[
                    (col as int, key@)
                ],
                None => !self@.contains_key((col as int, key@)),
            },
    {
        match self.find_index(col, key) {
            Some(i) => {
                proof {
                    lemma_entries_view_index(self.entries@, i as int);
                }
                Some(slice_to_vec(self.entries[i].value.as_slice()))
            },
            None => {
                proof {
                    lemma_entries_view_domain(self.entries@, (col as int, key@));
                }
                None
            },
        }
    }

    /// Whether `col` holds a value under `key`.
    pub fn contains(&self, col: u32, key: &[u8]) -> (r: bool)
        requires
            self.wf(),
            col < NUM_COLUMNS,
        ensures
            r == self@.contains_key((col as int, key@)),
    {
        let r = self.find_index(col, key);
        proof {
            lemma_entries_view_domain(self.entries@, (col as int, key@));
            if r is Some {
                lemma_entries_view_index(self.entries@, r->0 as int);
            }
        }
        r.is_some()
    }

    /// Write `value` under `key` in `col`, replacing any previous value.
    pub fn put(&mut self, col: u32, key: Vec<u8>, value: Vec<u8>)
        requires
            old(self).wf(),
            col < NUM_COLUMNS,
        ensures
            final(self).wf(),
            final(self)@ == old(self)@.insert((col as int, key@), value@),
            final(self).spec_fault() == old(self).spec_fault(),
    {
        let ghost s0 = self.entries@;
        let ghost k = (col as int, key@);
        match self.find_index(col, key.as_slice()) {
            Some(i) => {
                proof {
                    lemma_entries_view_remove(s0, i as int);
                }
                self.entries.remove(i);
                let ghost s1 = self.entries@;
                let e = DbEntry { col, key, value };
                proof {
                    lemma_entries_view_push(s1, e);
                    assert(forall|j: int|
                        0 <= j < s1.len() ==> entry_key(#[trigger] s1[j]) != k) by {
                        assert(forall|j: int|
                            0 <= j < s1.len() ==> s1[j] == s0[j] || s1[j] == s0[j + 1]);
                    }
                    assert(entries_view(s1.push(e)) =~= entries_view(s0).insert(k, e.value@));
                }
                self.entries.push(e);
            },
            None => {
                let e = DbEntry { col, key, value };
                proof {
                    lemma_entries_view_push(s0, e);
                }
                self.entries.push(e);
            },
        }
    }

    /// Remove the value stored under `key` in `col`, if any.
    pub fn delete(&mut self, col: u32, key: &[u8])
        requires
            old(self).wf(),
            col < NUM_COLUMNS,
        ensures
            final(self).wf(),
            final(self)@ == old(self)@.remove((col as int, key@)),
            final(self).spec_fault() == old(self).spec_fault(),
    {
        let ghost s0 = self.entries@;
        let ghost k = (col as int, key@);
        match self.find_index(col, key) {
            Some(i) => {
                proof {
                    lemma_entries_view_remove(s0, i as int);
                }
                self.entries.remove(i);
            },
            None => {
                proof {
                    lemma_entries_view_domain(s0, k);
                    assert(entries_view(s0) =~= entries_view(s0).remove(k));
                }
            },
        }
    }

    /// Apply a batch atomically: after a successful commit the engine holds
    /// exactly the batch applied to its previous contents; a refused commit
    /// leaves the contents untouched.
    pub fn commit(&mut self, tx: &DbTransaction) -> (r: Result<(), DbError>)
        requires
            old(self).wf(),
            tx.wf(),
        ensures
            final(self).wf(),
            r is Ok <==> !old(self).spec_fault(),
            r is Ok ==> final(self)@ == apply_ops(old(self)@, tx.ops@),
            r is Err ==> final(self)@ == old(self)@ && r == Err::<(), DbError>(
                DbError::CommitFailed,
            ),
            !final(self).spec_fault(),
    {
        if self.commit_fault {
            self.commit_fault = false;
            return Err(DbError::CommitFailed);
        }
        let ghost v0 = self@;
        let mut i: usize = 0;
        while i < tx.ops.len()
            invariant
                i <= tx.ops@.len(),
                tx.wf(),
                self.wf(),
                !self.spec_fault(),
                self@ == apply_ops(v0, tx.ops@.take(i as int)),
            decreases tx.ops@.len() - i,
        {
            let ghost pre = tx.ops@.take(i as int);
            assert(op_col(tx.ops@[i as int]) < NUM_COLUMNS);
            match &tx.ops[i] {
                DbOp::Put { col, key, value } => {
                    self.put(*col, slice_to_vec(key.as_slice()), slice_to_vec(value.as_slice()));
                },
                DbOp::Delete { col, key } => {
                    self.delete(*col, key.as_slice());
                },
            }
            proof {
                lemma_apply_ops_push(v0, pre, tx.ops@[i as int]);
                assert(pre.push(tx.ops@[i as int]) =~= tx.ops@.take(i + 1 as int));
            }
            i = i + 1;
        }
        proof {
            assert(tx.ops@.take(tx.ops@.len() as int) =~= tx.ops@);
        }
        Ok(())
    }

    /// Fault-injection harness around the engine boundary: when set, the
    /// next commit is refused (and applies nothing), after which commits
    /// succeed again.
    pub fn set_commit_fault(&mut self, fault: bool)
        ensures
            final(self)@ == old(self)@,
            final(self).wf() == old(self).wf(),
            final(self).spec_fault() == fault,
    {
        self.commit_fault = fault;
    }
}

} // verus!
