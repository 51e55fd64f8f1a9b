//! The data-availability store: facts staged for settlement on L1.
//!
//! Each block's fact is an independent entry: written once when the block
//! is produced, read when it is posted, and cleared once confirmed. The
//! store enforces no ordering between blocks.

use crate::columns;
use crate::engine::{EngineView, MemEngine};
use crate::types::{hash_bytes, hash_to_vec, StarkHash};
use vstd::prelude::*;
use vstd::slice::slice_to_vec;

verus! {

/// Handle of the data-availability store.
#[derive(Clone, Copy, Debug)]
pub struct DaDb {}

/// The fact staged for a block on a given engine view, if any.
pub open spec fn spec_da_fact(v: EngineView, block_id: StarkHash) -> Option<Seq<u8>> {
    let k = (columns::DA as int, hash_bytes(block_id));
    if v.contains_key(k) {
        Some(v[k])
    } else {
        None
    }
}

impl DaDb {
    /// Stage a fact for a block, replacing any previously staged fact.
    pub fn stage(&self, db: &mut MemEngine, block_id: &StarkHash, fact: Vec<u8>)
        requires
            old(db).wf(),
        ensures
            final(db).wf(),
            final(db)@ == old(db)@.insert((columns::DA as int, hash_bytes(*block_id)), fact@),
            final(db).spec_fault() == old(db).spec_fault(),
    {
        let key = hash_to_vec(block_id);
        db.put(columns::DA, key, fact);
    }

    /// The fact staged for a block, if any.
    pub fn get(&self, db: &MemEngine, block_id: &StarkHash) -> (r: Option<Vec<u8>>)
        requires
            db.wf(),
        ensures
            match r {
                Some(fact) => spec_da_fact(db@, *block_id) == Some(fact@),
                None => spec_da_fact(db@, *block_id) is None,
            },
    {
        let key = hash_to_vec(block_id);
        match db.get(columns::DA, key.as_slice()) {
            Some(v) => Some(slice_to_vec(v.as_slice())),
            None => None,
        }
    }

    /// Drop the fact staged for a block, once confirmed posted.
    pub fn clear(&self, db: &mut MemEngine, block_id: &StarkHash)
        requires
            old(db).wf(),
        ensures
            final(db).wf(),
            final(db)@ == old(db)@.remove((columns::DA as int, hash_bytes(*block_id))),
            final(db).spec_fault() == old(db).spec_fault(),
    {
        let key = hash_to_vec(block_id);
        db.delete(columns::DA, key.as_slice());
    }
}

} // verus!
