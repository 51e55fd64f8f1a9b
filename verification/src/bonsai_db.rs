//! The trie column store: raw key/value access for the external Merkle-trie
//! library, one handle per state domain.
//!
//! Keys and values are opaque here. The store guarantees isolation — the
//! three domains and the three namespaces per domain occupy distinct
//! columns, so equal key bytes never collide across them — and that a
//! block's trie mutations commit as one atomic batch.

use crate::columns::{spec_trie_column, trie_column, TrieColumn, TrieNamespace};
use crate::engine::{apply_ops, lemma_apply_ops_push, DbTransaction, EngineView, MemEngine};
use crate::error::DbError;
use vstd::prelude::*;
use vstd::slice::slice_to_vec;

verus! {

/// Handle on the trie columns of one state domain.
#[derive(Clone, Copy, Debug)]
pub struct BonsaiDb {
    pub current_column: TrieColumn,
}

/// The trie handles of the three state domains, all over the one shared
/// engine.
#[derive(Clone, Copy, Debug)]
pub struct BonsaiDbs {
    pub contract: BonsaiDb,
    pub class: BonsaiDb,
    pub storage: BonsaiDb,
}

/// One mutation of a trie commit: a write when `value` is `Some`, a removal
/// when it is `None`.
#[derive(Debug)]
pub struct TrieChange {
    pub namespace: TrieNamespace,
    pub key: Vec<u8>,
    pub value: Option<Vec<u8>>,
}

/// The value stored for a domain, namespace and key on a given engine view.
pub open spec fn spec_trie_get(
    v: EngineView,
    domain: TrieColumn,
    ns: TrieNamespace,
    key: Seq<u8>,
) -> Option<Seq<u8>> {
    let k = (spec_trie_column(domain, ns) as int, key);
    if v.contains_key(k) {
        Some(v[k])
    } else {
        None
    }
}

/// The engine view after one write into a domain's namespace.
pub open spec fn spec_trie_put(
    v: EngineView,
    domain: TrieColumn,
    ns: TrieNamespace,
    key: Seq<u8>,
    value: Seq<u8>,
) -> EngineView {
    v.insert((spec_trie_column(domain, ns) as int, key), value)
}

/// The engine view after a whole trie commit, applied in order.
pub open spec fn spec_trie_apply(
    v: EngineView,
    domain: TrieColumn,
    changes: Seq<TrieChange>,
) -> EngineView
    decreases changes.len(),
{
    if changes.len() == 0 {
        v
    } else {
        let rest = spec_trie_apply(v, domain, changes.drop_last());
        let c = changes.last();
        let k = (spec_trie_column(domain, c.namespace) as int, c.key@);
        match c.value {
            Some(value) => rest.insert(k, value@),
            None => rest.remove(k),
        }
    }
}

impl BonsaiDb {
    /// The value stored under `key` in this domain's `ns` namespace.
    pub fn get(&self, db: &MemEngine, ns: TrieNamespace, key: &[u8]) -> (r: Option<Vec<u8>>)
        requires
            db.wf(),
        ensures
            match r {
                Some(v) => spec_trie_get(db@, self.current_column, ns, key@) == Some(v@),
                None => spec_trie_get(db@, self.current_column, ns, key@) is None,
            },
    {
        proof {
            crate::columns::lemma_trie_columns_distinct(self.current_column, ns, self.current_column, ns);
        }
        let col = trie_column(self.current_column, ns);
        match db.get(col, key) {
            Some(v) => Some(slice_to_vec(v.as_slice())),
            None => None,
        }
    }

    /// Write `value` under `key` in this domain's `ns` namespace.
    pub fn put(&self, db: &mut MemEngine, ns: TrieNamespace, key: Vec<u8>, value: Vec<u8>)
        requires
            old(db).wf(),
        ensures
            final(db).wf(),
            final(db)@ == spec_trie_put(old(db)@, self.current_column, ns, key@, value@),
            final(db).spec_fault() == old(db).spec_fault(),
    {
        proof {
            crate::columns::lemma_trie_columns_distinct(self.current_column, ns, self.current_column, ns);
        }
        let col = trie_column(self.current_column, ns);
        db.put(col, key, value);
    }

    /// Remove `key` from this domain's `ns` namespace.
    pub fn delete(&self, db: &mut MemEngine, ns: TrieNamespace, key: &[u8])
        requires
            old(db).wf(),
        ensures
            final(db).wf(),
            final(db)@ == old(db)@.remove(
                (spec_trie_column(self.current_column, ns) as int, key@),
            ),
            final(db).spec_fault() == old(db).spec_fault(),
    {
        proof {
            crate::columns::lemma_trie_columns_distinct(self.current_column, ns, self.current_column, ns);
        }
        let col = trie_column(self.current_column, ns);
        db.delete(col, key);
    }

    /// Apply one block's trie mutations as a single atomic batch: either
    /// every change of the commit is applied, or — when the engine refuses
    /// the batch — none is, so a crash mid-commit can never leave one
    /// namespace updated and another stale.
    pub fn commit(&self, db: &mut MemEngine, changes: &Vec<TrieChange>) -> (r: Result<(), DbError>)
        requires
            old(db).wf(),
        ensures
            final(db).wf(),
            !final(db).spec_fault(),
            r is Ok <==> !old(db).spec_fault(),
            r is Ok ==> final(db)@ == spec_trie_apply(old(db)@, self.current_column, changes@),
            r is Err ==> final(db)@ == old(db)@ && r == Err::<(), DbError>(DbError::CommitFailed),
    {
        let ghost v0 = db@;
        let mut tx = DbTransaction::new();
        proof {
            assert(apply_ops(v0, tx.ops@) == v0);
        }
        let mut i: usize = 0;
        while i < changes.len()
            invariant
                i <= changes@.len(),
                tx.wf(),
                apply_ops(v0, tx.ops@) == spec_trie_apply(
                    v0,
                    self.current_column,
                    changes@.take(i as int),
                ),
            decreases changes@.len() - i,
        {
            proof {
                crate::columns::lemma_trie_columns_distinct(
                    self.current_column,
                    changes@[i as int].namespace,
                    self.current_column,
                    changes@[i as int].namespace,
                );
            }
            let ghost ops_pre = tx.ops@;
            let c = &changes[i];
            let col = trie_column(self.current_column, c.namespace);
            match &c.value {
                Some(value) => {
                    tx.put(col, slice_to_vec(c.key.as_slice()), slice_to_vec(value.as_slice()));
                },
                None => {
                    tx.delete(col, slice_to_vec(c.key.as_slice()));
                },
            }
            proof {
                lemma_apply_ops_push(v0, ops_pre, tx.ops@.last());
                let t = changes@.take(i + 1 as int);
                assert(t.drop_last() =~= changes@.take(i as int));
                assert(t.last() == changes@[i as int]);
            }
            i = i + 1;
        }
        proof {
            assert(changes@.take(changes@.len() as int) =~= changes@);
        }
        db.commit(&tx)
    }
}

} // verus!
