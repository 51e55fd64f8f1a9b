use madara_db::backend::{Backend, DatabaseSource};
use madara_db::columns;
use madara_db::columns::{trie_column, TrieColumn, TrieNamespace};
use madara_db::engine::{DbTransaction, MemEngine};
use madara_db::bonsai_db::TrieChange;
use madara_db::error::DbError;
use madara_db::mapping_db::BlockMapping;
use madara_db::types::StarkHash;

fn auto_source() -> DatabaseSource {
    DatabaseSource::Auto {
        rocksdb_path: String::new(),
        paritydb_path: String::new(),
        cache_size: 0,
    }
}

fn open_backend(cache_more_things: bool) -> Backend {
    Backend::open(&auto_source(), "/tmp/db", cache_more_things).unwrap()
}

fn h(x: u64) -> StarkHash {
    StarkHash::from_u64(x)
}

fn sample_mapping() -> BlockMapping {
    BlockMapping {
        domain_block_hash: h(1),
        outer_block_hash: h(2),
        block_number: 5,
        transaction_hashes: vec![h(3), h(4)],
    }
}

#[test]
fn open_rejects_unsupported_backend() {
    let r = Backend::open(&DatabaseSource::Custom, "/tmp/db", false);
    assert_eq!(r.err(), Some(DbError::UnsupportedBackend));
}

#[test]
fn open_supports_both_engines_and_auto() {
    assert!(Backend::open(
        &DatabaseSource::RocksDb { path: String::new(), cache_size: 0 },
        "/tmp/db",
        false,
    )
    .is_ok());
    assert!(Backend::open(&DatabaseSource::ParityDb { path: String::new() }, "/tmp/db", false)
        .is_ok());
    assert!(Backend::open(&auto_source(), "/tmp/db", false).is_ok());
}

#[test]
fn mapping_round_trip_with_cache() {
    let mut backend = open_backend(true);
    let mapping = *backend.mapping();
    let m = sample_mapping();
    mapping
        .write_block_mapping(&mut backend.engine, &m, true)
        .unwrap();
    assert_eq!(
        mapping.block_hash(&backend.engine, &h(1)).unwrap(),
        Some(h(2))
    );
    assert_eq!(
        mapping.block_number(&backend.engine, &h(1)).unwrap(),
        Some(5)
    );
    assert_eq!(
        mapping.transaction_hashes(&backend.engine, &h(1)).unwrap(),
        Some(vec![h(3), h(4)])
    );
    assert_eq!(
        mapping
            .block_hash_from_transaction_hash(&backend.engine, &h(3))
            .unwrap(),
        Some(h(2))
    );
    assert_eq!(
        mapping
            .block_hash_from_transaction_hash(&backend.engine, &h(4))
            .unwrap(),
        Some(h(2))
    );
}

#[test]
fn mapping_round_trip_empty_transaction_list() {
    let mut backend = open_backend(true);
    let mapping = *backend.mapping();
    let m = BlockMapping {
        domain_block_hash: h(9),
        outer_block_hash: h(10),
        block_number: 0,
        transaction_hashes: Vec::new(),
    };
    mapping
        .write_block_mapping(&mut backend.engine, &m, true)
        .unwrap();
    assert_eq!(
        mapping.block_hash(&backend.engine, &h(9)).unwrap(),
        Some(h(10))
    );
    assert_eq!(
        mapping.transaction_hashes(&backend.engine, &h(9)).unwrap(),
        Some(Vec::new())
    );
}

#[test]
fn mapping_cache_gating() {
    let mut backend = open_backend(true);
    let mapping = *backend.mapping();
    let m = sample_mapping();
    mapping
        .write_block_mapping(&mut backend.engine, &m, false)
        .unwrap();
    assert_eq!(
        mapping.block_hash(&backend.engine, &h(1)).unwrap(),
        Some(h(2))
    );
    assert_eq!(
        mapping.transaction_hashes(&backend.engine, &h(1)).unwrap(),
        None
    );
}

#[test]
fn mapping_cache_gating_by_backend_switch() {
    let mut backend = open_backend(false);
    let mapping = *backend.mapping();
    let m = sample_mapping();
    mapping
        .write_block_mapping(&mut backend.engine, &m, true)
        .unwrap();
    assert_eq!(
        mapping.block_hash(&backend.engine, &h(1)).unwrap(),
        Some(h(2))
    );
    assert_eq!(
        mapping.transaction_hashes(&backend.engine, &h(1)).unwrap(),
        None
    );
}

#[test]
fn mapping_absent_block_resolves_to_none() {
    let backend = open_backend(true);
    let mapping = *backend.mapping();
    assert_eq!(mapping.block_hash(&backend.engine, &h(1)).unwrap(), None);
    assert_eq!(mapping.block_number(&backend.engine, &h(1)).unwrap(), None);
    assert_eq!(
        mapping.transaction_hashes(&backend.engine, &h(1)).unwrap(),
        None
    );
}

#[test]
fn mapping_is_append_only() {
    let mut backend = open_backend(true);
    let mapping = *backend.mapping();
    let first = sample_mapping();
    mapping
        .write_block_mapping(&mut backend.engine, &first, true)
        .unwrap();
    let second = BlockMapping {
        domain_block_hash: h(21),
        outer_block_hash: h(22),
        block_number: 6,
        transaction_hashes: vec![h(3)],
    };
    mapping
        .write_block_mapping(&mut backend.engine, &second, true)
        .unwrap();
    // The earlier block still resolves exactly as before.
    assert_eq!(mapping.block_hash(&backend.engine, &h(1)).unwrap(), Some(h(2)));
    assert_eq!(mapping.block_number(&backend.engine, &h(1)).unwrap(), Some(5));
    assert_eq!(mapping.block_hash(&backend.engine, &h(21)).unwrap(), Some(h(22)));
}

#[test]
fn fee_dedup_is_idempotent() {
    let mut backend = open_backend(false);
    let fees = *backend.l1_handler_paid_fee();
    assert!(!fees.is_fee_paid(&backend.engine, 7));
    fees.record_paid_fee(&mut backend.engine, 7, 10).unwrap();
    assert!(fees.is_fee_paid(&backend.engine, 7));
    let second = fees.record_paid_fee(&mut backend.engine, 7, 99);
    assert_eq!(second, Err(DbError::AlreadyPaid));
    assert_eq!(fees.paid_fee(&backend.engine, 7).unwrap(), Some(10));
}

#[test]
fn fee_dedup_keeps_nonces_independent() {
    let mut backend = open_backend(false);
    let fees = *backend.l1_handler_paid_fee();
    fees.record_paid_fee(&mut backend.engine, 1, u128::MAX)
        .unwrap();
    assert!(!fees.is_fee_paid(&backend.engine, 2));
    fees.record_paid_fee(&mut backend.engine, 2, 0).unwrap();
    assert_eq!(fees.paid_fee(&backend.engine, 1).unwrap(), Some(u128::MAX));
    assert_eq!(fees.paid_fee(&backend.engine, 2).unwrap(), Some(0));
}

#[test]
fn messaging_cursor_persists_across_reopen() {
    let mut backend = open_backend(false);
    let messaging = *backend.messaging();
    assert_eq!(
        messaging.last_synced_event_block(&backend.engine).unwrap(),
        None
    );
    messaging.set_last_synced_event_block(&mut backend.engine, 100);
    let disk = backend.close();
    let reopened = Backend::open_from(&auto_source(), "/tmp/db", false, disk).unwrap();
    assert_eq!(
        reopened
            .messaging()
            .last_synced_event_block(&reopened.engine)
            .unwrap(),
        Some(100)
    );
}

#[test]
fn messaging_cursor_takes_largest_value() {
    let mut backend = open_backend(false);
    let messaging = *backend.messaging();
    messaging.set_last_synced_event_block(&mut backend.engine, u64::MAX);
    assert_eq!(
        messaging.last_synced_event_block(&backend.engine).unwrap(),
        Some(u64::MAX)
    );
}

#[test]
fn trie_columns_are_isolated() {
    let mut backend = open_backend(false);
    let contract = *backend.bonsai_contract();
    let class = *backend.bonsai_class();
    let storage = *backend.bonsai_storage();
    let key = vec![1u8, 2, 3];
    contract.put(
        &mut backend.engine,
        TrieNamespace::Trie,
        key.clone(),
        vec![42u8],
    );
    assert_eq!(
        contract.get(&backend.engine, TrieNamespace::Trie, &key),
        Some(vec![42u8])
    );
    assert_eq!(class.get(&backend.engine, TrieNamespace::Trie, &key), None);
    assert_eq!(storage.get(&backend.engine, TrieNamespace::Trie, &key), None);
    assert_eq!(
        contract.get(&backend.engine, TrieNamespace::Flat, &key),
        None
    );
    assert_eq!(contract.get(&backend.engine, TrieNamespace::Log, &key), None);
}

#[test]
fn trie_commit_applies_batch() {
    let mut backend = open_backend(false);
    let contract = *backend.bonsai_contract();
    contract.put(
        &mut backend.engine,
        TrieNamespace::Flat,
        vec![9u8],
        vec![1u8],
    );
    let changes = vec![
        TrieChange {
            namespace: TrieNamespace::Trie,
            key: vec![1u8],
            value: Some(vec![10u8]),
        },
        TrieChange {
            namespace: TrieNamespace::Log,
            key: vec![2u8],
            value: Some(vec![20u8]),
        },
        TrieChange {
            namespace: TrieNamespace::Flat,
            key: vec![9u8],
            value: None,
        },
    ];
    contract.commit(&mut backend.engine, &changes).unwrap();
    assert_eq!(
        contract.get(&backend.engine, TrieNamespace::Trie, &[1u8]),
        Some(vec![10u8])
    );
    assert_eq!(
        contract.get(&backend.engine, TrieNamespace::Log, &[2u8]),
        Some(vec![20u8])
    );
    assert_eq!(contract.get(&backend.engine, TrieNamespace::Flat, &[9u8]), None);
}

#[test]
fn interrupted_batch_write_applies_nothing() {
    let mut backend = open_backend(true);
    let mapping = *backend.mapping();
    let m = sample_mapping();
    backend.engine.set_commit_fault(true);
    let r = mapping.write_block_mapping(&mut backend.engine, &m, true);
    assert_eq!(r, Err(DbError::CommitFailed));
    // Reopen over the same contents: neither mapping column was updated.
    let disk = backend.close();
    let mut reopened = Backend::open_from(&auto_source(), "/tmp/db", true, disk).unwrap();
    let mapping = *reopened.mapping();
    assert_eq!(mapping.block_hash(&reopened.engine, &h(1)).unwrap(), None);
    assert_eq!(
        mapping.transaction_hashes(&reopened.engine, &h(1)).unwrap(),
        None
    );
    // The fault was consumed: the next write goes through whole.
    mapping
        .write_block_mapping(&mut reopened.engine, &m, true)
        .unwrap();
    assert_eq!(
        mapping.block_hash(&reopened.engine, &h(1)).unwrap(),
        Some(h(2))
    );
}

#[test]
fn interrupted_trie_commit_applies_nothing() {
    let mut backend = open_backend(false);
    let contract = *backend.bonsai_contract();
    backend.engine.set_commit_fault(true);
    let changes = vec![TrieChange {
        namespace: TrieNamespace::Trie,
        key: vec![1u8],
        value: Some(vec![10u8]),
    }];
    let r = contract.commit(&mut backend.engine, &changes);
    assert_eq!(r, Err(DbError::CommitFailed));
    assert_eq!(contract.get(&backend.engine, TrieNamespace::Trie, &[1u8]), None);
}

#[test]
fn engine_commits_batches_across_columns() {
    let mut engine = MemEngine::new();
    engine.put(columns::META, vec![1u8], vec![10u8]);
    let mut tx = DbTransaction::new();
    tx.put(columns::DA, vec![1u8], vec![20u8]);
    tx.put(columns::MESSAGING, vec![1u8], vec![30u8]);
    tx.delete(columns::META, vec![1u8]);
    engine.commit(&tx).unwrap();
    // Same key bytes, three different columns, one atomic batch.
    assert_eq!(engine.get(columns::META, &[1u8]), None);
    assert_eq!(engine.get(columns::DA, &[1u8]), Some(vec![20u8]));
    assert_eq!(engine.get(columns::MESSAGING, &[1u8]), Some(vec![30u8]));
    assert!(engine.contains(columns::DA, &[1u8]));
    engine.delete(columns::DA, &[1u8]);
    assert!(!engine.contains(columns::DA, &[1u8]));
    // Overwrites replace in place.
    engine.put(columns::MESSAGING, vec![1u8], vec![31u8]);
    assert_eq!(engine.get(columns::MESSAGING, &[1u8]), Some(vec![31u8]));
}

#[test]
fn meta_tips_and_proved_block() {
    let mut backend = open_backend(false);
    let meta = *backend.meta();
    assert_eq!(meta.get_syncing_tips(&backend.engine).unwrap(), Vec::new());
    assert_eq!(meta.get_last_proved_block(&backend.engine).unwrap(), None);
    let tips = vec![h(11), h(12)];
    meta.set_syncing_tips(&mut backend.engine, &tips);
    meta.set_last_proved_block(&mut backend.engine, 77);
    assert_eq!(meta.get_syncing_tips(&backend.engine).unwrap(), tips);
    assert_eq!(meta.get_last_proved_block(&backend.engine).unwrap(), Some(77));
    // Last writer wins, also backwards: the store checks no monotonicity.
    meta.set_last_proved_block(&mut backend.engine, 3);
    assert_eq!(meta.get_last_proved_block(&backend.engine).unwrap(), Some(3));
}

#[test]
fn da_stage_get_clear() {
    let mut backend = open_backend(false);
    let da = *backend.da();
    assert_eq!(da.get(&backend.engine, &h(1)), None);
    da.stage(&mut backend.engine, &h(1), vec![5u8, 6, 7]);
    assert_eq!(da.get(&backend.engine, &h(1)), Some(vec![5u8, 6, 7]));
    da.clear(&mut backend.engine, &h(1));
    assert_eq!(da.get(&backend.engine, &h(1)), None);
}

#[test]
fn sierra_classes_are_content_addressed() {
    let mut backend = open_backend(false);
    let classes = *backend.sierra_classes();
    assert_eq!(classes.get(&backend.engine, &h(1)), None);
    classes.put(&mut backend.engine, &h(1), vec![1u8, 1, 2, 3, 5, 8]);
    assert_eq!(
        classes.get(&backend.engine, &h(1)),
        Some(vec![1u8, 1, 2, 3, 5, 8])
    );
    // Re-putting the same bytes is a safe no-op.
    classes.put(&mut backend.engine, &h(1), vec![1u8, 1, 2, 3, 5, 8]);
    assert_eq!(
        classes.get(&backend.engine, &h(1)),
        Some(vec![1u8, 1, 2, 3, 5, 8])
    );
}

#[test]
fn temporary_global_state_root_is_zero() {
    let backend = open_backend(false);
    assert_eq!(
        backend.temporary_global_state_root_getter(),
        StarkHash::from_u64(0)
    );
}

#[test]
fn end_to_end_scenario() {
    let mut backend = Backend::open(&auto_source(), "/tmp/scenario", false).unwrap();
    let mapping = *backend.mapping();
    let m = BlockMapping {
        domain_block_hash: h(0x11),
        outer_block_hash: h(0x51),
        block_number: 5,
        transaction_hashes: vec![h(0x71), h(0x72)],
    };
    mapping
        .write_block_mapping(&mut backend.engine, &m, false)
        .unwrap();
    assert_eq!(
        mapping.block_hash(&backend.engine, &h(0x11)).unwrap(),
        Some(h(0x51))
    );
    assert_eq!(
        mapping.transaction_hashes(&backend.engine, &h(0x11)).unwrap(),
        None
    );
    let classes = *backend.sierra_classes();
    classes.put(&mut backend.engine, &h(0xc1), vec![0xb0u8, 0xb1]);
    assert_eq!(
        classes.get(&backend.engine, &h(0xc1)),
        Some(vec![0xb0u8, 0xb1])
    );
    let fees = *backend.l1_handler_paid_fee();
    fees.record_paid_fee(&mut backend.engine, 7, 10).unwrap();
    assert!(fees.is_fee_paid(&backend.engine, 7));
    assert_eq!(
        fees.record_paid_fee(&mut backend.engine, 7, 99),
        Err(DbError::AlreadyPaid)
    );
    assert_eq!(fees.paid_fee(&backend.engine, 7).unwrap(), Some(10));
}

#[test]
fn trie_column_ordinals_are_fixed() {
    assert_eq!(trie_column(TrieColumn::Contract, TrieNamespace::Trie), 9);
    assert_eq!(trie_column(TrieColumn::Contract, TrieNamespace::Flat), 10);
    assert_eq!(trie_column(TrieColumn::Contract, TrieNamespace::Log), 11);
    assert_eq!(trie_column(TrieColumn::Class, TrieNamespace::Trie), 12);
    assert_eq!(trie_column(TrieColumn::Class, TrieNamespace::Flat), 13);
    assert_eq!(trie_column(TrieColumn::Class, TrieNamespace::Log), 14);
    assert_eq!(trie_column(TrieColumn::Storage, TrieNamespace::Trie), 15);
    assert_eq!(trie_column(TrieColumn::Storage, TrieNamespace::Flat), 16);
    assert_eq!(trie_column(TrieColumn::Storage, TrieNamespace::Log), 17);
}

#[test]
fn static_keys_spell_their_names() {
    assert_eq!(
        madara_db::static_keys::current_syncing_tips(),
        b"CURRENT_SYNCING_TIPS".to_vec()
    );
    assert_eq!(
        madara_db::static_keys::last_proved_block(),
        b"LAST_PROVED_BLOCK".to_vec()
    );
    assert_eq!(
        madara_db::static_keys::last_synced_l1_event_block(),
        b"LAST_SYNCED_L1_EVENT_BLOCK".to_vec()
    );
}

#[test]
fn starknet_database_dir_follows_convention() {
    assert_eq!(
        madara_db::backend::starknet_database_dir("/data/chain", "rocksdb"),
        "/data/chain/starknet/rocksdb"
    );
}

#[test]
fn corrupted_record_is_reported_not_fatal() {
    let mut backend = open_backend(true);
    // Plant a record of the wrong width where a block hash belongs.
    let key = madara_db::types::hash_to_vec(&h(1));
    backend
        .engine
        .put(madara_db::columns::BLOCK_MAPPING, key, vec![1u8, 2, 3]);
    let mapping = *backend.mapping();
    assert_eq!(
        mapping.block_hash(&backend.engine, &h(1)),
        Err(DbError::CorruptedData)
    );
    // Other blocks stay readable.
    assert_eq!(mapping.block_hash(&backend.engine, &h(2)).unwrap(), None);
}
