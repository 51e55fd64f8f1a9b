//! The block-hash mapping store.
//!
//! Maps the chain's own ("domain") block hash to the enclosing outer-layer
//! block hash and to the block number, and optionally caches the list of
//! transaction hashes a block contains. One mapping write updates all of its
//! columns as a single atomic batch.

use crate::columns;
use crate::engine::{apply_ops, lemma_apply_ops_push, DbTransaction, EngineView, MemEngine};
use crate::error::DbError;
use crate::types::{
    hash_bytes, hash_from_bytes, hash_from_slice, hash_list_bytes, hash_list_from_bytes,
    hash_list_from_slice, hash_list_to_vec, hash_to_vec, StarkHash,
};
use vstd::bytes::{spec_u64_from_le_bytes, spec_u64_to_le_bytes, u64_from_le_bytes, u64_to_le_bytes};
use vstd::prelude::*;

verus! {

/// One block's entry in the mapping index: the chain's own block hash, the
/// hash of the outer-layer block that wraps it, the block number, and the
/// hashes of the transactions the block contains.
///
/// Mappings are written in block order, once per block, and never mutated
/// or deleted afterwards.
#[derive(Clone, Debug, PartialEq, Eq)]
pub struct BlockMapping {
    pub domain_block_hash: StarkHash,
    pub outer_block_hash: StarkHash,
    pub block_number: u64,
    pub transaction_hashes: Vec<StarkHash>,
}

/// Handle of the mapping store. Holds the backend-wide switch that enables
/// the transaction-hash cache.
#[derive(Clone, Copy, Debug)]
pub struct MappingDb {
    pub cache_more_things: bool,
}

/// The transaction-mapping entries a mapping write adds: each transaction
/// hash points at the outer block that contains it.
pub open spec fn tx_mapping_inserts(
    v: EngineView,
    txs: Seq<StarkHash>,
    outer: StarkHash,
) -> EngineView
    decreases txs.len(),
{
    if txs.len() == 0 {
        v
    } else {
        tx_mapping_inserts(v, txs.drop_last(), outer).insert(
            (columns::TRANSACTION_MAPPING as int, hash_bytes(txs.last())),
            hash_bytes(outer),
        )
    }
}

/// The engine view after a mapping write: the domain hash points at the
/// outer hash and at the block number, every transaction hash points at the
/// outer hash, and — when caching — the domain hash points at the encoded
/// transaction-hash list.
pub open spec fn mapping_write_view(v: EngineView, m: BlockMapping, cache: bool) -> EngineView {
    let v1 = v.insert(
        (columns::BLOCK_MAPPING as int, hash_bytes(m.domain_block_hash)),
        hash_bytes(m.outer_block_hash),
    ).insert(
        (columns::SYNCED_MAPPING as int, hash_bytes(m.domain_block_hash)),
        spec_u64_to_le_bytes(m.block_number),
    );
    let v2 = tx_mapping_inserts(v1, m.transaction_hashes@, m.outer_block_hash);
    if cache {
        v2.insert(
            (
                columns::STARKNET_TRANSACTION_HASHES_CACHE as int,
                hash_bytes(m.domain_block_hash),
            ),
            hash_list_bytes(m.transaction_hashes@),
        )
    } else {
        v2
    }
}

/// What a block-hash lookup returns on a given engine view.
pub open spec fn spec_block_hash(v: EngineView, domain: StarkHash) -> Result<
    Option<StarkHash>,
    DbError,
> {
    let k = (columns::BLOCK_MAPPING as int, hash_bytes(domain));
    if !v.contains_key(k) {
        Ok(None)
    } else if v[k].len() == 32 {
        Ok(Some(hash_from_bytes(v[k])))
    } else {
        Err(DbError::CorruptedData)
    }
}

/// What a block-number lookup returns on a given engine view.
pub open spec fn spec_block_number(v: EngineView, domain: StarkHash) -> Result<
    Option<u64>,
    DbError,
> {
    let k = (columns::SYNCED_MAPPING as int, hash_bytes(domain));
    if !v.contains_key(k) {
        Ok(None)
    } else if v[k].len() == 8 {
        Ok(Some(spec_u64_from_le_bytes(v[k])))
    } else {
        Err(DbError::CorruptedData)
    }
}

/// What a cached transaction-hash lookup returns on a given engine view.
/// `Ok(None)` means the cache holds nothing for this block — also the case
/// when the mapping itself exists but was written with caching disabled.
pub open spec fn spec_transaction_hashes(v: EngineView, domain: StarkHash) -> Result<
    Option<Seq<StarkHash>>,
    DbError,
> {
    let k = (columns::STARKNET_TRANSACTION_HASHES_CACHE as int, hash_bytes(domain));
    if !v.contains_key(k) {
        Ok(None)
    } else if v[k].len() % 32 == 0 {
        Ok(Some(hash_list_from_bytes(v[k])))
    } else {
        Err(DbError::CorruptedData)
    }
}

/// What a transaction-to-block lookup returns on a given engine view.
pub open spec fn spec_block_hash_from_transaction_hash(
    v: EngineView,
    tx_hash: StarkHash,
) -> Result<Option<StarkHash>, DbError> {
    let k = (columns::TRANSACTION_MAPPING as int, hash_bytes(tx_hash));
    if !v.contains_key(k) {
        Ok(None)
    } else if v[k].len() == 32 {
        Ok(Some(hash_from_bytes(v[k])))
    } else {
        Err(DbError::CorruptedData)
    }
}

impl MappingDb {
    /// Write one block's mapping as a single atomic batch.
    ///
    /// The transaction-hash cache column is written exactly when the
    /// backend-wide cache switch and the per-call request are both on.
    /// When the engine refuses the batch, nothing is written at all.
    pub fn write_block_mapping(
        &self,
        db: &mut MemEngine,
        mapping: &BlockMapping,
        cache_transactions: bool,
    ) -> (r: Result<(), DbError>)
        requires
            old(db).wf(),
        ensures
            final(db).wf(),
            !final(db).spec_fault(),
            r is Ok <==> !old(db).spec_fault(),
            r is Ok ==> final(db)@ == mapping_write_view(
                old(db)@,
                *mapping,
                self.cache_more_things && cache_transactions,
            ),
            r is Err ==> final(db)@ == old(db)@ && r == Err::<(), DbError>(DbError::CommitFailed),
    {
        let ghost v0 = db@;
        let cache = self.cache_more_things && cache_transactions;
        let mut tx = DbTransaction::new();
        proof {
            assert(apply_ops(v0, tx.ops@) == v0);
        }
        let ghost ops0 = tx.ops@;
        tx.put(
            columns::BLOCK_MAPPING,
            hash_to_vec(&mapping.domain_block_hash),
            hash_to_vec(&mapping.outer_block_hash),
        );
        proof {
            lemma_apply_ops_push(v0, ops0, tx.ops@.last());
        }
        let ghost ops1 = tx.ops@;
        tx.put(
            columns::SYNCED_MAPPING,
            hash_to_vec(&mapping.domain_block_hash),
            u64_to_le_bytes(mapping.block_number),
        );
        proof {
            lemma_apply_ops_push(v0, ops1, tx.ops@.last());
        }
        let ghost v1 = v0.insert(
            (columns::BLOCK_MAPPING as int, hash_bytes(mapping.domain_block_hash)),
            hash_bytes(mapping.outer_block_hash),
        ).insert(
            (columns::SYNCED_MAPPING as int, hash_bytes(mapping.domain_block_hash)),
            spec_u64_to_le_bytes(mapping.block_number),
        );
        proof {
            assert(apply_ops(v0, tx.ops@) == v1);
        }
        let mut i: usize = 0;
        while i < mapping.transaction_hashes.len()
            invariant
                i <= mapping.transaction_hashes@.len(),
                tx.wf(),
                apply_ops(v0, tx.ops@) == tx_mapping_inserts(
                    v1,
                    mapping.transaction_hashes@.take(i as int),
                    mapping.outer_block_hash,
                ),
            decreases mapping.transaction_hashes@.len() - i,
        {
            let ghost ops_pre = tx.ops@;
            tx.put(
                columns::TRANSACTION_MAPPING,
                hash_to_vec(&mapping.transaction_hashes[i]),
                hash_to_vec(&mapping.outer_block_hash),
            );
            proof {
                lemma_apply_ops_push(v0, ops_pre, tx.ops@.last());
                let t = mapping.transaction_hashes@.take(i + 1 as int);
                assert(t.drop_last() =~= mapping.transaction_hashes@.take(i as int));
                assert(t.last() == mapping.transaction_hashes@[i as int]);
            }
            i = i + 1;
        }
        proof {
            assert(mapping.transaction_hashes@.take(mapping.transaction_hashes@.len() as int)
                =~= mapping.transaction_hashes@);
        }
        if cache {
            let ghost ops_pre = tx.ops@;
            tx.put(
                columns::STARKNET_TRANSACTION_HASHES_CACHE,
                hash_to_vec(&mapping.domain_block_hash),
                hash_list_to_vec(&mapping.transaction_hashes),
            );
            proof {
                lemma_apply_ops_push(v0, ops_pre, tx.ops@.last());
            }
        }
        db.commit(&tx)
    }

    /// The outer-layer block hash the domain block hash is mapped to.
    pub fn block_hash(&self, db: &MemEngine, domain_block_hash: &StarkHash) -> (r: Result<
        Option<StarkHash>,
        DbError,
    >)
        requires
            db.wf(),
        ensures
            r == spec_block_hash(db@, *domain_block_hash),
    {
        let key = hash_to_vec(domain_block_hash);
        match db.get(columns::BLOCK_MAPPING, key.as_slice()) {
            None => Ok(None),
            Some(v) => {
                if v.len() == 32 {
                    Ok(Some(hash_from_slice(v.as_slice())))
                } else {
                    Err(DbError::CorruptedData)
                }
            },
        }
    }

    /// The block number recorded for the domain block hash.
    pub fn block_number(&self, db: &MemEngine, domain_block_hash: &StarkHash) -> (r: Result<
        Option<u64>,
        DbError,
    >)
        requires
            db.wf(),
        ensures
            r == spec_block_number(db@, *domain_block_hash),
    {
        let key = hash_to_vec(domain_block_hash);
        match db.get(columns::SYNCED_MAPPING, key.as_slice()) {
            None => Ok(None),
            Some(v) => {
                if v.len() == 8 {
                    Ok(Some(u64_from_le_bytes(v.as_slice())))
                } else {
                    Err(DbError::CorruptedData)
                }
            },
        }
    }

    /// The cached transaction hashes of the block, `Ok(None)` when the cache
    /// holds nothing for it — callers must not conflate that with "mapping
    /// absent", which [`Self::block_hash`] answers.
    pub fn transaction_hashes(&self, db: &MemEngine, domain_block_hash: &StarkHash) -> (r: Result<
        Option<Vec<StarkHash>>,
        DbError,
    >)
        requires
            db.wf(),
        ensures
            match r {
                Ok(Some(txs)) => spec_transaction_hashes(db@, *domain_block_hash) == Ok::<
                    Option<Seq<StarkHash>>,
                    DbError,
                >(Some(txs@)),
                Ok(None) => spec_transaction_hashes(db@, *domain_block_hash) == Ok::<
                    Option<Seq<StarkHash>>,
                    DbError,
                >(None),
                Err(e) => spec_transaction_hashes(db@, *domain_block_hash) == Err::<
                    Option<Seq<StarkHash>>,
                    DbError,
                >(e),
            },
    {
        let key = hash_to_vec(domain_block_hash);
        match db.get(columns::STARKNET_TRANSACTION_HASHES_CACHE, key.as_slice()) {
            None => Ok(None),
            Some(v) => {
                if v.len() % 32 == 0 {
                    Ok(Some(hash_list_from_slice(v.as_slice())))
                } else {
                    Err(DbError::CorruptedData)
                }
            },
        }
    }

    /// The outer-layer block hash of the block containing the transaction.
    pub fn block_hash_from_transaction_hash(
        &self,
        db: &MemEngine,
        transaction_hash: &StarkHash,
    ) -> (r: Result<Option<StarkHash>, DbError>)
        requires
            db.wf(),
        ensures
            r == spec_block_hash_from_transaction_hash(db@, *transaction_hash),
    {
        let key = hash_to_vec(transaction_hash);
        match db.get(columns::TRANSACTION_MAPPING, key.as_slice()) {
            None => Ok(None),
            Some(v) => {
                if v.len() == 32 {
                    Ok(Some(hash_from_slice(v.as_slice())))
                } else {
                    Err(DbError::CorruptedData)
                }
            },
        }
    }
}

} // verus!
