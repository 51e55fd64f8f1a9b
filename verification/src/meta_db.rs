//! The chain metadata store: current syncing tips and last proved block.
//!
//! Each record is an independent singleton slot with last-writer-wins
//! semantics; no cross-key atomicity is needed. The store does not check
//! monotonicity of the proved-block pointer: that is the caller's
//! responsibility.

use crate::columns;
use crate::engine::{EngineView, MemEngine};
use crate::error::DbError;
use crate::static_keys;
use crate::types::{hash_list_bytes, hash_list_from_bytes, hash_list_from_slice, hash_list_to_vec, StarkHash};
use vstd::bytes::{spec_u64_from_le_bytes, spec_u64_to_le_bytes, u64_from_le_bytes, u64_to_le_bytes};
use vstd::prelude::*;

verus! {

/// Handle of the metadata store.
#[derive(Clone, Copy, Debug)]
pub struct MetaDb {}

/// What a syncing-tips read returns on a given engine view: the stored tip
/// set, or the empty set when none was ever written.
pub open spec fn spec_syncing_tips(v: EngineView) -> Result<Seq<StarkHash>, DbError> {
    let k = (columns::META as int, static_keys::spec_current_syncing_tips());
    if !v.contains_key(k) {
        Ok(Seq::empty())
    } else if v[k].len() % 32 == 0 {
        Ok(hash_list_from_bytes(v[k]))
    } else {
        Err(DbError::CorruptedData)
    }
}

/// The engine view after the tip set is replaced.
pub open spec fn spec_set_syncing_tips(v: EngineView, tips: Seq<StarkHash>) -> EngineView {
    v.insert(
        (columns::META as int, static_keys::spec_current_syncing_tips()),
        hash_list_bytes(tips),
    )
}

/// What a proved-block read returns on a given engine view.
pub open spec fn spec_last_proved_block(v: EngineView) -> Result<Option<u64>, DbError> {
    let k = (columns::META as int, static_keys::spec_last_proved_block());
    if !v.contains_key(k) {
        Ok(None)
    } else if v[k].len() == 8 {
        Ok(Some(spec_u64_from_le_bytes(v[k])))
    } else {
        Err(DbError::CorruptedData)
    }
}

/// The engine view after the proved-block pointer is replaced.
pub open spec fn spec_set_last_proved_block(v: EngineView, n: u64) -> EngineView {
    v.insert((columns::META as int, static_keys::spec_last_proved_block()), spec_u64_to_le_bytes(n))
}

impl MetaDb {
    /// The current set of outer-layer best-tip candidates; empty before the
    /// first write.
    pub fn get_syncing_tips(&self, db: &MemEngine) -> (r: Result<Vec<StarkHash>, DbError>)
        requires
            db.wf(),
        ensures
            match r {
                Ok(tips) => spec_syncing_tips(db@) == Ok::<Seq<StarkHash>, DbError>(tips@),
                Err(e) => spec_syncing_tips(db@) == Err::<Seq<StarkHash>, DbError>(e),
            },
    {
        let key = static_keys::current_syncing_tips();
        match db.get(columns::META, key.as_slice()) {
            None => {
                let tips: Vec<StarkHash> = Vec::new();
                Ok(tips)
            },
            Some(v) => {
                if v.len() % 32 == 0 {
                    Ok(hash_list_from_slice(v.as_slice()))
                } else {
                    Err(DbError::CorruptedData)
                }
            },
        }
    }

    /// Replace the set of best-tip candidates (last writer wins).
    pub fn set_syncing_tips(&self, db: &mut MemEngine, tips: &Vec<StarkHash>)
        requires
            old(db).wf(),
        ensures
            final(db).wf(),
            final(db)@ == spec_set_syncing_tips(old(db)@, tips@),
            final(db).spec_fault() == old(db).spec_fault(),
    {
        let key = static_keys::current_syncing_tips();
        let value = hash_list_to_vec(tips);
        db.put(columns::META, key, value);
    }

    /// The last block whose proof was recorded; `None` before the first
    /// write.
    pub fn get_last_proved_block(&self, db: &MemEngine) -> (r: Result<Option<u64>, DbError>)
        requires
            db.wf(),
        ensures
            r == spec_last_proved_block(db@),
    {
        let key = static_keys::last_proved_block();
        match db.get(columns::META, key.as_slice()) {
            None => Ok(None),
            Some(v) => {
                if v.len() == 8 {
                    Ok(Some(u64_from_le_bytes(v.as_slice())))
                } else {
                    Err(DbError::CorruptedData)
                }
            },
        }
    }

    /// Replace the proved-block pointer (last writer wins; the store accepts
    /// backward updates).
    pub fn set_last_proved_block(&self, db: &mut MemEngine, block_number: u64)
        requires
            old(db).wf(),
        ensures
            final(db).wf(),
            final(db)@ == spec_set_last_proved_block(old(db)@, block_number),
            final(db).spec_fault() == old(db).spec_fault(),
    {
        let key = static_keys::last_proved_block();
        let value = u64_to_le_bytes(block_number);
        db.put(columns::META, key, value);
    }
}

} // verus!
