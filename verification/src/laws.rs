//! The store laws: what reads observe after writes, stated over the engine
//! views that the stores' own contracts use.
//!
//! Atomicity under partial failure is not restated here: it is the `ensures`
//! of [`crate::engine::MemEngine::commit`] and of every batch writer built
//! on it — a refused commit leaves the engine view exactly as it was.

use crate::bonsai_db::{spec_trie_get, spec_trie_put};
use crate::columns;
use crate::columns::{lemma_trie_columns_distinct, TrieColumn, TrieNamespace};
use crate::engine::EngineView;
use crate::l1_handler_tx_fee::{spec_is_fee_paid, spec_paid_fee, spec_record_paid_fee};
use crate::mapping_db::{
    mapping_write_view, spec_block_hash, spec_block_number, spec_transaction_hashes,
    tx_mapping_inserts, BlockMapping,
};
use crate::messaging_db::{spec_last_synced_event_block, spec_set_last_synced_event_block};
use crate::types::{
    hash_bytes, lemma_hash_bytes_round_trip, lemma_hash_list_round_trip, StarkHash,
};
use vstd::arithmetic::div_mod::lemma_mod_multiples_basic;
use vstd::bytes::{lemma_auto_spec_u128_to_from_le_bytes, lemma_auto_spec_u64_to_from_le_bytes};
use vstd::prelude::*;

verus! {

/// The transaction-mapping inserts of a mapping write touch only the
/// transaction-mapping column: every other key reads as before.
proof fn lemma_tx_inserts_preserve(
    v: EngineView,
    txs: Seq<StarkHash>,
    outer: StarkHash,
    k: (int, Seq<u8>),
)
    requires
        k.0 != columns::TRANSACTION_MAPPING as int,
    ensures
        tx_mapping_inserts(v, txs, outer).contains_key(k) == v.contains_key(k),
        v.contains_key(k) ==> tx_mapping_inserts(v, txs, outer)[k] == v[k],
    decreases txs.len(),
{
    if txs.len() > 0 {
        lemma_tx_inserts_preserve(v, txs.drop_last(), outer, k);
    }
}

/// Round trip of the mapping store: after a mapping is written with caching
/// on, looking its domain hash up returns exactly the outer hash, the block
/// number and the transaction hashes that were written.
pub proof fn lemma_mapping_round_trip(v: EngineView, m: BlockMapping)
    ensures
        spec_block_hash(mapping_write_view(v, m, true), m.domain_block_hash) == Ok::<
            Option<StarkHash>,
            crate::error::DbError,
        >(Some(m.outer_block_hash)),
        spec_block_number(mapping_write_view(v, m, true), m.domain_block_hash) == Ok::<
            Option<u64>,
            crate::error::DbError,
        >(Some(m.block_number)),
        spec_transaction_hashes(mapping_write_view(v, m, true), m.domain_block_hash) == Ok::<
            Option<Seq<StarkHash>>,
            crate::error::DbError,
        >(Some(m.transaction_hashes@)),
{
    lemma_auto_spec_u64_to_from_le_bytes();
    lemma_hash_bytes_round_trip(m.outer_block_hash);
    lemma_hash_list_round_trip(m.transaction_hashes@);
    lemma_mod_multiples_basic(m.transaction_hashes@.len() as int, 32);
    let hd = hash_bytes(m.domain_block_hash);
    let kb = (columns::BLOCK_MAPPING as int, hd);
    let ks = (columns::SYNCED_MAPPING as int, hd);
    let v1 = v.insert(kb, hash_bytes(m.outer_block_hash)).insert(
        ks,
        vstd::bytes::spec_u64_to_le_bytes(m.block_number),
    );
    lemma_tx_inserts_preserve(v1, m.transaction_hashes@, m.outer_block_hash, kb);
    lemma_tx_inserts_preserve(v1, m.transaction_hashes@, m.outer_block_hash, ks);
}

/// Cache gating: a mapping written with caching off resolves by block hash
/// but leaves the transaction-hash cache empty for its block, so the lookup
/// answers `None` where it never answered before.
pub proof fn lemma_mapping_cache_gating(v: EngineView, m: BlockMapping)
    requires
        !v.contains_key(
            (
                columns::STARKNET_TRANSACTION_HASHES_CACHE as int,
                hash_bytes(m.domain_block_hash),
            ),
        ),
    ensures
        spec_block_hash(mapping_write_view(v, m, false), m.domain_block_hash) == Ok::<
            Option<StarkHash>,
            crate::error::DbError,
        >(Some(m.outer_block_hash)),
        spec_transaction_hashes(mapping_write_view(v, m, false), m.domain_block_hash) == Ok::<
            Option<Seq<StarkHash>>,
            crate::error::DbError,
        >(None),
{
    lemma_hash_bytes_round_trip(m.outer_block_hash);
    let hd = hash_bytes(m.domain_block_hash);
    let kb = (columns::BLOCK_MAPPING as int, hd);
    let ks = (columns::SYNCED_MAPPING as int, hd);
    let kc = (columns::STARKNET_TRANSACTION_HASHES_CACHE as int, hd);
    let v1 = v.insert(kb, hash_bytes(m.outer_block_hash)).insert(
        ks,
        vstd::bytes::spec_u64_to_le_bytes(m.block_number),
    );
    lemma_tx_inserts_preserve(v1, m.transaction_hashes@, m.outer_block_hash, kb);
    lemma_tx_inserts_preserve(v1, m.transaction_hashes@, m.outer_block_hash, kc);
}

/// The mapping index is append-only: writing a later block's mapping never
/// disturbs what an earlier block's domain hash resolves to, whatever the
/// later block's transactions and caching mode are.
pub proof fn lemma_mapping_append_only(v: EngineView, m1: BlockMapping, m2: BlockMapping, cache: bool)
    requires
        m1.domain_block_hash != m2.domain_block_hash,
    ensures
        spec_block_hash(mapping_write_view(v, m2, cache), m1.domain_block_hash) == spec_block_hash(
            v,
            m1.domain_block_hash,
        ),
        spec_block_number(mapping_write_view(v, m2, cache), m1.domain_block_hash)
            == spec_block_number(v, m1.domain_block_hash),
{
    if hash_bytes(m1.domain_block_hash) == hash_bytes(m2.domain_block_hash) {
        crate::types::lemma_hash_bytes_injective(m1.domain_block_hash, m2.domain_block_hash);
    }
    let h1 = hash_bytes(m1.domain_block_hash);
    let kb = (columns::BLOCK_MAPPING as int, h1);
    let ks = (columns::SYNCED_MAPPING as int, h1);
    let v1 = v.insert(
        (columns::BLOCK_MAPPING as int, hash_bytes(m2.domain_block_hash)),
        hash_bytes(m2.outer_block_hash),
    ).insert(
        (columns::SYNCED_MAPPING as int, hash_bytes(m2.domain_block_hash)),
        vstd::bytes::spec_u64_to_le_bytes(m2.block_number),
    );
    lemma_tx_inserts_preserve(v1, m2.transaction_hashes@, m2.outer_block_hash, kb);
    lemma_tx_inserts_preserve(v1, m2.transaction_hashes@, m2.outer_block_hash, ks);
}

/// Fee dedup: no fee is recorded on an empty backend; once one is recorded
/// for a nonce it reads back exactly, and the record itself marks the nonce
/// paid. That a second record is refused and changes nothing is the
/// `ensures` of [`crate::l1_handler_tx_fee::L1HandlerTxFeeDb::record_paid_fee`].
pub proof fn lemma_fee_dedup(v: EngineView, nonce: u64, fee: u128)
    ensures
        !spec_is_fee_paid(Map::empty(), nonce),
        spec_is_fee_paid(spec_record_paid_fee(v, nonce, fee), nonce),
        spec_paid_fee(spec_record_paid_fee(v, nonce, fee), nonce) == Ok::<
            Option<u128>,
            crate::error::DbError,
        >(Some(fee)),
{
    lemma_auto_spec_u128_to_from_le_bytes();
}

/// Messaging cursor persistence: the cursor is `None` on an empty backend,
/// and after it is set to `n` every later read — also through a backend
/// reopened over the same engine contents, which
/// [`crate::backend::Backend::open_from`] hands through unchanged — answers
/// `Some(n)`.
pub proof fn lemma_messaging_cursor(v: EngineView, n: u64)
    ensures
        spec_last_synced_event_block(Map::empty()) == Ok::<
            Option<u64>,
            crate::error::DbError,
        >(None),
        spec_last_synced_event_block(spec_set_last_synced_event_block(v, n)) == Ok::<
            Option<u64>,
            crate::error::DbError,
        >(Some(n)),
{
    lemma_auto_spec_u64_to_from_le_bytes();
}

/// Column isolation: a write into one domain/namespace never shows up under
/// any other domain or namespace, even for identical key bytes; on an empty
/// backend the other namespace still reads nothing.
pub proof fn lemma_column_isolation(
    v: EngineView,
    d1: TrieColumn,
    n1: TrieNamespace,
    d2: TrieColumn,
    n2: TrieNamespace,
    key: Seq<u8>,
    value: Seq<u8>,
)
    requires
        d1 != d2 || n1 != n2,
    ensures
        spec_trie_get(spec_trie_put(v, d1, n1, key, value), d2, n2, key) == spec_trie_get(
            v,
            d2,
            n2,
            key,
        ),
        spec_trie_get(spec_trie_put(Map::empty(), d1, n1, key, value), d2, n2, key) is None,
{
    lemma_trie_columns_distinct(d1, n1, d2, n2);
}

} // verus!
