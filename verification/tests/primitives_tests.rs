use madara_db::genesis::{GenesisConfig, GenesisData};
use madara_db::header::{BlockStatus, Header, ResourcePrice, XorHasher};
use madara_db::transactions::{
    update_legacy, DeployTransaction, HandleL1MessageTransaction, InvokeTransaction,
    InvokeTransactionV1, LegacyEnv, TransactionExecutionStatus, TransactionFinalityStatus,
    TransactionStatus, TxType, UserOrL1HandlerTransaction, UserTransaction,
    LEGACY_BLOCK_NUMBER, LEGACY_L1_HANDLER_BLOCK,
};
use madara_db::types::{
    hash_list_from_slice, hash_list_to_vec, hash_to_vec, ClassHash, ContractAddress, StarkHash,
    StorageKey,
};

fn h(x: u64) -> StarkHash {
    StarkHash::from_u64(x)
}

fn sample_header(block_number: u64) -> Header {
    Header::new(
        h(1),
        block_number,
        h(2),
        ContractAddress(h(3)),
        1000,
        2,
        h(4),
        6,
        h(5),
        h(0),
        ResourcePrice { price_in_strk: 1, price_in_wei: 2 },
        None,
    )
}

#[test]
fn hash_encoding_round_trips() {
    let value = StarkHash {
        limb0: 0x0102030405060708,
        limb1: 0x1112131415161718,
        limb2: 0x2122232425262728,
        limb3: 0x3132333435363738,
    };
    let bytes = hash_to_vec(&value);
    assert_eq!(bytes.len(), 32);
    assert_eq!(
        &bytes[0..8],
        &[0x08, 0x07, 0x06, 0x05, 0x04, 0x03, 0x02, 0x01]
    );
    assert_eq!(madara_db::types::hash_from_slice(&bytes), value);
}

#[test]
fn hash_list_encoding_round_trips() {
    let hashes = vec![h(1), h(2), h(u64::MAX)];
    let bytes = hash_list_to_vec(&hashes);
    assert_eq!(bytes.len(), 96);
    assert_eq!(hash_list_from_slice(&bytes), hashes);
    let empty: Vec<StarkHash> = Vec::new();
    assert_eq!(hash_list_to_vec(&empty).len(), 0);
    assert_eq!(hash_list_from_slice(&[]), empty);
}

#[test]
fn from_u128_splits_limbs() {
    let value = StarkHash::from_u128(u128::MAX);
    assert_eq!(value.limb0, u64::MAX);
    assert_eq!(value.limb1, u64::MAX);
    assert_eq!(value.limb2, 0);
    assert_eq!(value.limb3, 0);
}

#[test]
fn block_status_defaults_to_accepted_on_l2() {
    assert_eq!(BlockStatus::default(), BlockStatus::AcceptedOnL2);
}

#[test]
fn header_new_keeps_fields() {
    let header = sample_header(900);
    assert_eq!(header.parent_block_hash, h(1));
    assert_eq!(header.block_number, 900);
    assert_eq!(header.global_state_root, h(2));
    assert_eq!(header.sequencer_address, ContractAddress(h(3)));
    assert_eq!(header.block_timestamp, 1000);
    assert_eq!(header.transaction_count, 2);
    assert_eq!(header.event_count, 6);
    assert_eq!(header.extra_data, None);
}

#[test]
fn header_hash_current_layout() {
    let header = sample_header(900);
    // Fold the current 11-element layout by hand with the same hasher.
    let expected = [
        h(900),
        h(2),
        h(3),
        h(1000),
        h(2),
        h(4),
        h(6),
        h(5),
        h(0),
        h(0),
        h(1),
    ]
    .iter()
    .fold(h(0), |acc, e| StarkHash {
        limb0: acc.limb0 ^ e.limb0,
        limb1: acc.limb1 ^ e.limb1,
        limb2: acc.limb2 ^ e.limb2,
        limb3: acc.limb3 ^ e.limb3,
    });
    assert_eq!(header.hash(&XorHasher {}), expected);
}

#[test]
fn header_hash_legacy_layout_binds_chain_name() {
    let header = sample_header(1);
    // The legacy 12-element layout blanks most fields and mixes in the
    // chain name; sequencer address, timestamp and event data drop out.
    let expected = [
        h(1),
        h(2),
        h(2),
        h(4),
        h(0x534e5f4d41494e),
        h(1),
    ]
    .iter()
    .fold(h(0), |acc, e| StarkHash {
        limb0: acc.limb0 ^ e.limb0,
        limb1: acc.limb1 ^ e.limb1,
        limb2: acc.limb2 ^ e.limb2,
        limb3: acc.limb3 ^ e.limb3,
    });
    assert_eq!(header.hash(&XorHasher {}), expected);
}

#[test]
fn header_into_block_context_sets_chain_limits() {
    let context = sample_header(900).into_block_context(ContractAddress(h(9)), h(0x534e));
    assert_eq!(context.chain_id, h(0x534e));
    assert_eq!(context.block_number, 900);
    assert_eq!(context.block_timestamp, 1000);
    assert_eq!(context.sequencer_address, ContractAddress(h(3)));
    assert!(context.vm_resource_fee_cost.is_empty());
    assert_eq!(context.fee_token_address, ContractAddress(h(9)));
    assert_eq!(context.invoke_tx_max_n_steps, 1000000);
    assert_eq!(context.validate_max_n_steps, 1000000);
    assert_eq!(context.gas_price, 10);
    assert_eq!(context.max_recursion_depth, 50);
}

#[test]
fn update_legacy_clears_the_flag() {
    let mut env = LegacyEnv { legacy_mode: true };
    update_legacy(&mut env);
    assert!(!env.legacy_mode);
    assert_eq!(LEGACY_BLOCK_NUMBER, 1470);
    assert_eq!(LEGACY_L1_HANDLER_BLOCK, 854);
}

#[test]
fn tx_type_classification() {
    let invoke = UserTransaction::Invoke(InvokeTransaction::V1(InvokeTransactionV1 {
        max_fee: 1,
        signature: Vec::new(),
        nonce: h(0),
        sender_address: h(1),
        calldata: Vec::new(),
        offset_version: false,
    }));
    assert_eq!(TxType::from(&invoke), TxType::Invoke);
    let deploy = UserTransaction::Deploy(DeployTransaction {
        version: h(1),
        class_hash: h(2),
        contract_address_salt: h(3),
        constructor_calldata: Vec::new(),
    });
    // A plain deploy is classified as an account deployment.
    assert_eq!(TxType::from(&deploy), TxType::DeployAccount);
    let l1 = UserOrL1HandlerTransaction::L1Handler(
        HandleL1MessageTransaction {
            nonce: 7,
            contract_address: h(1),
            entry_point_selector: h(2),
            calldata: Vec::new(),
        },
        10,
    );
    assert_eq!(TxType::from(&l1), TxType::L1Handler);
    assert_eq!(
        TxType::from(&UserOrL1HandlerTransaction::User(invoke)),
        TxType::Invoke
    );
}

#[test]
fn transaction_status_carries_both_parts() {
    let status = TransactionStatus {
        finality_status: TransactionFinalityStatus::AcceptedOnL1,
        execution_status: TransactionExecutionStatus::Reverted,
    };
    assert_eq!(status.finality_status, TransactionFinalityStatus::AcceptedOnL1);
    assert_eq!(status.execution_status, TransactionExecutionStatus::Reverted);
}

#[test]
fn genesis_config_wraps_every_element() {
    let data = GenesisData {
        contract_classes: Vec::new(),
        sierra_class_hash_to_casm_class_hash: vec![(h(42), h(1))],
        contracts: vec![(h(2), h(1))],
        predeployed_accounts: Vec::new(),
        storage: vec![((h(2), h(3)), h(4))],
        fee_token_address: h(5),
    };
    let config = GenesisConfig::from_data(&data);
    assert_eq!(config.contracts, vec![(ContractAddress(h(2)), ClassHash(h(1)))]);
    assert_eq!(
        config.sierra_to_casm_class_hash,
        vec![(ClassHash(h(42)), ClassHash(h(1)))]
    );
    assert_eq!(
        config.storage,
        vec![((ContractAddress(h(2)), StorageKey(h(3))), h(4))]
    );
    assert_eq!(config.fee_token_address, ContractAddress(h(5)));
}
