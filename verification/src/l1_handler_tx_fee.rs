//! The L1-handler fee store: a dedup ledger for fees paid on L1.
//!
//! An entry's existence is the proof that the message with that nonce
//! already executed and its fee is final; recording it twice is refused so
//! the message cannot be charged or executed twice. The check and the
//! insert happen under one exclusive borrow of the engine, so no second
//! writer can slip between them.

use crate::columns;
use crate::engine::{EngineView, MemEngine};
use crate::error::DbError;
use vstd::bytes::{
    spec_u128_from_le_bytes, spec_u128_to_le_bytes, spec_u64_to_le_bytes, u128_from_le_bytes,
    u128_to_le_bytes, u64_to_le_bytes,
};
use vstd::prelude::*;

verus! {

/// Handle of the L1-handler fee store.
#[derive(Clone, Copy, Debug)]
pub struct L1HandlerTxFeeDb {}

/// The engine key under which a nonce's fee is recorded.
pub open spec fn fee_key(nonce: u64) -> Seq<u8> {
    spec_u64_to_le_bytes(nonce)
}

/// Whether a fee was recorded for the nonce on a given engine view.
pub open spec fn spec_is_fee_paid(v: EngineView, nonce: u64) -> bool {
    v.contains_key((columns::L1_HANDLER_PAID_FEE as int, fee_key(nonce)))
}

/// The fee recorded for a nonce on a given engine view.
pub open spec fn spec_paid_fee(v: EngineView, nonce: u64) -> Result<Option<u128>, DbError> {
    let k = (columns::L1_HANDLER_PAID_FEE as int, fee_key(nonce));
    if !v.contains_key(k) {
        Ok(None)
    } else if v[k].len() == 16 {
        Ok(Some(spec_u128_from_le_bytes(v[k])))
    } else {
        Err(DbError::CorruptedData)
    }
}

/// The engine view after a fee is recorded for a nonce.
pub open spec fn spec_record_paid_fee(v: EngineView, nonce: u64, fee: u128) -> EngineView {
    v.insert((columns::L1_HANDLER_PAID_FEE as int, fee_key(nonce)), spec_u128_to_le_bytes(fee))
}

impl L1HandlerTxFeeDb {
    /// Whether a fee was already recorded for this nonce.
    pub fn is_fee_paid(&self, db: &MemEngine, nonce: u64) -> (r: bool)
        requires
            db.wf(),
        ensures
            r == spec_is_fee_paid(db@, nonce),
    {
        let key = u64_to_le_bytes(nonce);
        db.contains(columns::L1_HANDLER_PAID_FEE, key.as_slice())
    }

    /// The fee recorded for this nonce, if any.
    pub fn paid_fee(&self, db: &MemEngine, nonce: u64) -> (r: Result<Option<u128>, DbError>)
        requires
            db.wf(),
        ensures
            r == spec_paid_fee(db@, nonce),
    {
        let key = u64_to_le_bytes(nonce);
        match db.get(columns::L1_HANDLER_PAID_FEE, key.as_slice()) {
            None => Ok(None),
            Some(v) => {
                if v.len() == 16 {
                    Ok(Some(u128_from_le_bytes(v.as_slice())))
                } else {
                    Err(DbError::CorruptedData)
                }
            },
        }
    }

    /// Record the fee paid for a nonce, exactly once: succeeds if and only
    /// if no fee was recorded for this nonce before; a duplicate returns
    /// [`DbError::AlreadyPaid`] and leaves the stored entry untouched.
    pub fn record_paid_fee(&self, db: &mut MemEngine, nonce: u64, fee: u128) -> (r: Result<
        (),
        DbError,
    >)
        requires
            old(db).wf(),
        ensures
            final(db).wf(),
            final(db).spec_fault() == old(db).spec_fault(),
            r is Ok <==> !spec_is_fee_paid(old(db)@, nonce),
            r is Ok ==> final(db)@ == spec_record_paid_fee(old(db)@, nonce, fee),
            r is Err ==> final(db)@ == old(db)@ && r == Err::<(), DbError>(DbError::AlreadyPaid),
    {
        let key = u64_to_le_bytes(nonce);
        if db.contains(columns::L1_HANDLER_PAID_FEE, key.as_slice()) {
            return Err(DbError::AlreadyPaid);
        }
        let value = u128_to_le_bytes(fee);
        db.put(columns::L1_HANDLER_PAID_FEE, key, value);
        Ok(())
    }
}

} // verus!
