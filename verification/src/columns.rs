//! The fixed column scheme multiplexed onto the shared engine.
//!
//! Column ordinals are part of the on-disk format and are never renumbered:
//! adding a column means bumping [`NUM_COLUMNS`].

use vstd::prelude::*;

verus! {

/// Total number of columns. Must be incremented when a column is added.
pub const NUM_COLUMNS: u32 = 18;

pub const META: u32 = 0;
pub const BLOCK_MAPPING: u32 = 1;
pub const TRANSACTION_MAPPING: u32 = 2;
pub const SYNCED_MAPPING: u32 = 3;
pub const DA: u32 = 4;

/// Maps a chain block hash to the hashes of the transactions the block
/// contains. Only populated when transaction caching is enabled.
pub const STARKNET_TRANSACTION_HASHES_CACHE: u32 = 5;

/// Holds the last synchronized L1 event block.
pub const MESSAGING: u32 = 6;

/// Holds the compiled Sierra contract classes, keyed by class hash.
pub const SIERRA_CONTRACT_CLASSES: u32 = 7;

/// Holds the fee paid on L1 for each executed L1-handler transaction.
pub const L1_HANDLER_PAID_FEE: u32 = 8;

// Three raw namespaces (trie nodes, flat values, change log) for each of the
// three state domains backed by the external Merkle-trie library.
pub const TRIE_BONSAI_CONTRACTS: u32 = 9;
pub const FLAT_BONSAI_CONTRACTS: u32 = 10;
pub const LOG_BONSAI_CONTRACTS: u32 = 11;
pub const TRIE_BONSAI_CLASSES: u32 = 12;
pub const FLAT_BONSAI_CLASSES: u32 = 13;
pub const LOG_BONSAI_CLASSES: u32 = 14;
pub const TRIE_BONSAI_STORAGE: u32 = 15;
pub const FLAT_BONSAI_STORAGE: u32 = 16;
pub const LOG_BONSAI_STORAGE: u32 = 17;

/// The state domains whose commitments the external trie library computes.
#[derive(Clone, Copy, Debug, PartialEq, Eq, Structural)]
pub enum TrieColumn {
    Contract,
    Class,
    Storage,
}

/// The three raw namespaces kept for each state domain.
#[derive(Clone, Copy, Debug, PartialEq, Eq, Structural)]
pub enum TrieNamespace {
    Trie,
    Flat,
    Log,
}

/// The column ordinal that holds one namespace of one state domain.
pub open spec fn spec_trie_column(domain: TrieColumn, ns: TrieNamespace) -> u32 {
    match (domain, ns) {
        (TrieColumn::Contract, TrieNamespace::Trie) => TRIE_BONSAI_CONTRACTS,
        (TrieColumn::Contract, TrieNamespace::Flat) => FLAT_BONSAI_CONTRACTS,
        (TrieColumn::Contract, TrieNamespace::Log) => LOG_BONSAI_CONTRACTS,
        (TrieColumn::Class, TrieNamespace::Trie) => TRIE_BONSAI_CLASSES,
        (TrieColumn::Class, TrieNamespace::Flat) => FLAT_BONSAI_CLASSES,
        (TrieColumn::Class, TrieNamespace::Log) => LOG_BONSAI_CLASSES,
        (TrieColumn::Storage, TrieNamespace::Trie) => TRIE_BONSAI_STORAGE,
        (TrieColumn::Storage, TrieNamespace::Flat) => FLAT_BONSAI_STORAGE,
        (TrieColumn::Storage, TrieNamespace::Log) => LOG_BONSAI_STORAGE,
    }
}

/// Resolve the column ordinal of a domain and namespace.
pub fn trie_column(domain: TrieColumn, ns: TrieNamespace) -> (c: u32)
    ensures
        c == spec_trie_column(domain, ns),
{
    match (domain, ns) {
        (TrieColumn::Contract, TrieNamespace::Trie) => TRIE_BONSAI_CONTRACTS,
        (TrieColumn::Contract, TrieNamespace::Flat) => FLAT_BONSAI_CONTRACTS,
        (TrieColumn::Contract, TrieNamespace::Log) => LOG_BONSAI_CONTRACTS,
        (TrieColumn::Class, TrieNamespace::Trie) => TRIE_BONSAI_CLASSES,
        (TrieColumn::Class, TrieNamespace::Flat) => FLAT_BONSAI_CLASSES,
        (TrieColumn::Class, TrieNamespace::Log) => LOG_BONSAI_CLASSES,
        (TrieColumn::Storage, TrieNamespace::Trie) => TRIE_BONSAI_STORAGE,
        (TrieColumn::Storage, TrieNamespace::Flat) => FLAT_BONSAI_STORAGE,
        (TrieColumn::Storage, TrieNamespace::Log) => LOG_BONSAI_STORAGE,
    }
}

/// Trie columns are valid ordinals and never collide: two distinct
/// domain/namespace pairs always resolve to distinct columns.
pub proof fn lemma_trie_columns_distinct(
    d1: TrieColumn,
    n1: TrieNamespace,
    d2: TrieColumn,
    n2: TrieNamespace,
)
    ensures
        spec_trie_column(d1, n1) < NUM_COLUMNS,
        (d1 != d2 || n1 != n2) ==> spec_trie_column(d1, n1) != spec_trie_column(d2, n2),
{
}

} // verus!
