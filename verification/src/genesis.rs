//! Genesis state: the declared classes, deployed contracts and initial
//! storage the chain starts from, and its conversion into the runtime's
//! configuration shape.

use crate::types::{ClassHash, ContractAddress, StarkHash, StorageKey};
use vstd::prelude::*;

verus! {

/// Where a genesis contract class comes from.
#[derive(Clone, Debug, PartialEq, Eq)]
pub enum ContractClassSource {
    /// A class read from a file of the given layout version.
    Path { path: String, version: u8 },
    /// A class carried inline as its compiled bytes.
    Raw { class: Vec<u8> },
}

/// An account predeployed at genesis.
#[derive(Clone, Copy, Debug, PartialEq, Eq, Structural)]
pub struct PredeployedAccount {
    pub contract_address: StarkHash,
    pub class_hash: StarkHash,
}

/// The genesis state as loaded from configuration.
#[derive(Clone, Debug, PartialEq, Eq)]
pub struct GenesisData {
    pub contract_classes: Vec<(StarkHash, ContractClassSource)>,
    pub sierra_class_hash_to_casm_class_hash: Vec<(StarkHash, StarkHash)>,
    pub contracts: Vec<(StarkHash, StarkHash)>,
    pub predeployed_accounts: Vec<PredeployedAccount>,
    pub storage: Vec<((StarkHash, StarkHash), StarkHash)>,
    pub fee_token_address: StarkHash,
}

/// The genesis state in the shape the runtime consumes: every raw element
/// wrapped as the address, class hash or storage key it stands for.
#[derive(Clone, Debug, PartialEq, Eq)]
pub struct GenesisConfig {
    pub contracts: Vec<(ContractAddress, ClassHash)>,
    pub sierra_to_casm_class_hash: Vec<(ClassHash, ClassHash)>,
    pub storage: Vec<((ContractAddress, StorageKey), StarkHash)>,
    pub fee_token_address: ContractAddress,
}

impl GenesisConfig {
    /// Convert loaded genesis data into the runtime's shape: the contract,
    /// class-hash and storage lists element for element, each raw element
    /// wrapped as what it stands for, and the fee token address wrapped as
    /// an address.
    pub fn from_data(data: &GenesisData) -> (r: GenesisConfig)
        ensures
            r.contracts@.len() == data.contracts@.len(),
            forall|i: int|
                0 <= i < data.contracts@.len() ==> #[trigger] r.contracts@[i] == (
                    ContractAddress(data.contracts@[i].0),
                    ClassHash(data.contracts@[i].1),
                ),
            r.sierra_to_casm_class_hash@.len()
                == data.sierra_class_hash_to_casm_class_hash@.len(),
            forall|i: int|
                0 <= i < data.sierra_class_hash_to_casm_class_hash@.len()
                    ==> #[trigger] r.sierra_to_casm_class_hash@[i] == (
                    ClassHash(data.sierra_class_hash_to_casm_class_hash@[i].0),
                    ClassHash(data.sierra_class_hash_to_casm_class_hash@[i].1),
                ),
            r.storage@.len() == data.storage@.len(),
            forall|i: int|
                0 <= i < data.storage@.len() ==> #[trigger] r.storage@[i] == (
                    (
                        ContractAddress(data.storage@[i].0.0),
                        StorageKey(data.storage@[i].0.1),
                    ),
                    data.storage@[i].1,
                ),
            r.fee_token_address == ContractAddress(data.fee_token_address),
    {
        let mut contracts: Vec<(ContractAddress, ClassHash)> = Vec::new();
        let mut i: usize = 0;
        while i < data.contracts.len()
            invariant
                i <= data.contracts@.len(),
                contracts@.len() == i,
                forall|j: int|
                    0 <= j < i ==> #[trigger] contracts@[j] == (
                        ContractAddress(data.contracts@[j].0),
                        ClassHash(data.contracts@[j].1),
                    ),
            decreases data.contracts@.len() - i,
        {
            let (address, hash) = data.contracts[i];
            contracts.push((ContractAddress(address), ClassHash(hash)));
            i = i + 1;
        }
        let mut sierra_to_casm_class_hash: Vec<(ClassHash, ClassHash)> = Vec::new();
        let mut i: usize = 0;
        while i < data.sierra_class_hash_to_casm_class_hash.len()
            invariant
                i <= data.sierra_class_hash_to_casm_class_hash@.len(),
                sierra_to_casm_class_hash@.len() == i,
                forall|j: int|
                    0 <= j < i ==> #[trigger] sierra_to_casm_class_hash@[j] == (
                        ClassHash(data.sierra_class_hash_to_casm_class_hash@[j].0),
                        ClassHash(data.sierra_class_hash_to_casm_class_hash@[j].1),
                    ),
            decreases data.sierra_class_hash_to_casm_class_hash@.len() - i,
        {
            let (sierra_hash, casm_hash) = data.sierra_class_hash_to_casm_class_hash[i];
            sierra_to_casm_class_hash.push((ClassHash(sierra_hash), ClassHash(casm_hash)));
            i = i + 1;
        }
        let mut storage: Vec<((ContractAddress, StorageKey), StarkHash)> = Vec::new();
        let mut i: usize = 0;
        while i < data.storage.len()
            invariant
                i <= data.storage@.len(),
                storage@.len() == i,
                forall|j: int|
                    0 <= j < i ==> #[trigger] storage@[j] == (
                        (
                            ContractAddress(data.storage@[j].0.0),
                            StorageKey(data.storage@[j].0.1),
                        ),
                        data.storage@[j].1,
                    ),
            decreases data.storage@.len() - i,
        {
            let ((contract_address, key), value) = data.storage[i];
            storage.push(((ContractAddress(contract_address), StorageKey(key)), value));
            i = i + 1;
        }
        GenesisConfig {
            contracts,
            sierra_to_casm_class_hash,
            storage,
            fee_token_address: ContractAddress(data.fee_token_address),
        }
    }
}

} // verus!
