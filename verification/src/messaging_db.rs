//! The messaging store: the resumption cursor of the L1 event watcher.
//!
//! The cursor is read before resuming the watcher and updated after each
//! successfully ingested batch of events. The store performs no
//! monotonicity check; backward updates are the caller's responsibility.

use crate::columns;
use crate::engine::{EngineView, MemEngine};
use crate::error::DbError;
use crate::static_keys;
use vstd::bytes::{spec_u64_from_le_bytes, spec_u64_to_le_bytes, u64_from_le_bytes, u64_to_le_bytes};
use vstd::prelude::*;

verus! {

/// Handle of the messaging store.
#[derive(Clone, Copy, Debug)]
pub struct MessagingDb {}

/// What a cursor read returns on a given engine view: `None` before the
/// first write, afterwards the last written L1 block number.
pub open spec fn spec_last_synced_event_block(v: EngineView) -> Result<Option<u64>, DbError> {
    let k = (columns::MESSAGING as int, static_keys::spec_last_synced_l1_event_block());
    if !v.contains_key(k) {
        Ok(None)
    } else if v[k].len() == 8 {
        Ok(Some(spec_u64_from_le_bytes(v[k])))
    } else {
        Err(DbError::CorruptedData)
    }
}

/// The engine view after the cursor is replaced.
pub open spec fn spec_set_last_synced_event_block(v: EngineView, n: u64) -> EngineView {
    v.insert(
        (columns::MESSAGING as int, static_keys::spec_last_synced_l1_event_block()),
        spec_u64_to_le_bytes(n),
    )
}

impl MessagingDb {
    /// The last L1 block whose events were ingested; `None` on a fresh
    /// backend.
    pub fn last_synced_event_block(&self, db: &MemEngine) -> (r: Result<Option<u64>, DbError>)
        requires
            db.wf(),
        ensures
            r == spec_last_synced_event_block(db@),
    {
        let key = static_keys::last_synced_l1_event_block();
        match db.get(columns::MESSAGING, key.as_slice()) {
            None => Ok(None),
            Some(v) => {
                if v.len() == 8 {
                    Ok(Some(u64_from_le_bytes(v.as_slice())))
                } else {
                    Err(DbError::CorruptedData)
                }
            },
        }
    }

    /// Record the last L1 block whose events were ingested.
    pub fn set_last_synced_event_block(&self, db: &mut MemEngine, block_number: u64)
        requires
            old(db).wf(),
        ensures
            final(db).wf(),
            final(db)@ == spec_set_last_synced_event_block(old(db)@, block_number),
            final(db).spec_fault() == old(db).spec_fault(),
    {
        let key = static_keys::last_synced_l1_event_block();
        let value = u64_to_le_bytes(block_number);
        db.put(columns::MESSAGING, key, value);
    }
}

} // verus!
