//! The compiled-class store: compiled Sierra contract classes by class hash.
//!
//! Content-addressed: a class hash determines its bytes, so writers may
//! repeat a put of the same bytes, and no update semantics exist. That two
//! writers never put different bytes under one hash is an upstream
//! invariant, not enforced here.

use crate::columns;
use crate::engine::{EngineView, MemEngine};
use crate::types::{hash_bytes, hash_to_vec, StarkHash};
use vstd::prelude::*;
use vstd::slice::slice_to_vec;

verus! {

/// Handle of the compiled-class store.
#[derive(Clone, Copy, Debug)]
pub struct SierraClassesDb {}

/// The compiled class stored under a class hash on a given engine view.
pub open spec fn spec_sierra_class(v: EngineView, class_hash: StarkHash) -> Option<Seq<u8>> {
    let k = (columns::SIERRA_CONTRACT_CLASSES as int, hash_bytes(class_hash));
    if v.contains_key(k) {
        Some(v[k])
    } else {
        None
    }
}

impl SierraClassesDb {
    /// The compiled class bytes cached for a class hash, if any.
    pub fn get(&self, db: &MemEngine, class_hash: &StarkHash) -> (r: Option<Vec<u8>>)
        requires
            db.wf(),
        ensures
            match r {
                Some(class) => spec_sierra_class(db@, *class_hash) == Some(class@),
                None => spec_sierra_class(db@, *class_hash) is None,
            },
    {
        let key = hash_to_vec(class_hash);
        match db.get(columns::SIERRA_CONTRACT_CLASSES, key.as_slice()) {
            Some(v) => Some(slice_to_vec(v.as_slice())),
            None => None,
        }
    }

    /// Cache the compiled class bytes under their class hash.
    pub fn put(&self, db: &mut MemEngine, class_hash: &StarkHash, class: Vec<u8>)
        requires
            old(db).wf(),
        ensures
            final(db).wf(),
            final(db)@ == old(db)@.insert(
                (columns::SIERRA_CONTRACT_CLASSES as int, hash_bytes(*class_hash)),
                class@,
            ),
            final(db).spec_fault() == old(db).spec_fault(),
    {
        let key = hash_to_vec(class_hash);
        db.put(columns::SIERRA_CONTRACT_CLASSES, key, class);
    }
}

} // verus!
