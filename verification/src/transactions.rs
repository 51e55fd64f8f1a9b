//! Transaction types of the chain and their classification.
//!
//! Values, addresses and hashes are carried as the crate's uniform
//! [`StarkHash`] element type. Converting these types into the execution
//! engine's own transaction structures, and back from wire formats, is the
//! embedding application's work; what stands here is the data model and the
//! classification rules over it.

use crate::types::StarkHash;
use vstd::prelude::*;

verus! {

/// Block numbers below which deprecated transaction layouts apply.
pub const LEGACY_BLOCK_NUMBER: u64 = 1470;
pub const LEGACY_L1_HANDLER_BLOCK: u64 = 854;

/// Whether deprecated transaction layouts are still in effect. Threaded
/// explicitly through the calls that hash and convert transactions, rather
/// than kept as a process-wide toggle.
pub struct LegacyEnv {
    pub legacy_mode: bool,
}

/// Leave legacy mode once the chain has passed the deprecated layouts.
pub fn update_legacy(env: &mut LegacyEnv)
    ensures
        !final(env).legacy_mode,
{
    env.legacy_mode = false;
}

/// How far a transaction has progressed on the outer layers.
#[derive(Clone, Copy, Debug, PartialEq, Eq, Structural)]
pub enum TransactionFinalityStatus {
    AcceptedOnL2,
    AcceptedOnL1,
}

/// How a transaction's execution ended.
#[derive(Clone, Copy, Debug, PartialEq, Eq, Structural)]
pub enum TransactionExecutionStatus {
    Succeeded,
    Reverted,
}

/// Finality and execution status of a transaction.
#[derive(Clone, Copy, Debug, PartialEq, Eq, Structural)]
pub struct TransactionStatus {
    pub finality_status: TransactionFinalityStatus,
    pub execution_status: TransactionExecutionStatus,
}

/// The kinds of transactions the chain accepts.
#[derive(Clone, Copy, Debug, PartialEq, Eq, Structural)]
pub enum TxType {
    /// Regular invoke transaction.
    Invoke,
    /// Declare transaction.
    Declare,
    /// Deploy transaction.
    Deploy,
    /// Deploy account transaction.
    DeployAccount,
    /// Message sent from the settlement layer.
    L1Handler,
}

/// A compiled contract class, carried as opaque bytes.
#[derive(Clone, Debug, PartialEq, Eq)]
pub struct ContractClass {
    pub class: Vec<u8>,
}

#[derive(Clone, Debug, PartialEq, Eq)]
pub struct InvokeTransactionV0 {
    pub max_fee: u128,
    pub signature: Vec<StarkHash>,
    pub contract_address: StarkHash,
    pub entry_point_selector: StarkHash,
    pub calldata: Vec<StarkHash>,
}

#[derive(Clone, Debug, PartialEq, Eq)]
pub struct InvokeTransactionV1 {
    pub max_fee: u128,
    pub signature: Vec<StarkHash>,
    pub nonce: StarkHash,
    pub sender_address: StarkHash,
    pub calldata: Vec<StarkHash>,
    pub offset_version: bool,
}

#[derive(Clone, Debug, PartialEq, Eq)]
pub enum InvokeTransaction {
    V0(InvokeTransactionV0),
    V1(InvokeTransactionV1),
}

#[derive(Clone, Debug, PartialEq, Eq)]
pub struct DeclareTransactionV0 {
    pub max_fee: u128,
    pub signature: Vec<StarkHash>,
    pub nonce: StarkHash,
    pub class_hash: StarkHash,
    pub sender_address: StarkHash,
}

#[derive(Clone, Debug, PartialEq, Eq)]
pub struct DeclareTransactionV1 {
    pub max_fee: u128,
    pub signature: Vec<StarkHash>,
    pub nonce: StarkHash,
    pub class_hash: StarkHash,
    pub sender_address: StarkHash,
    pub offset_version: bool,
}

#[derive(Clone, Debug, PartialEq, Eq)]
pub struct DeclareTransactionV2 {
    pub max_fee: u128,
    pub signature: Vec<StarkHash>,
    pub nonce: StarkHash,
    pub class_hash: StarkHash,
    pub sender_address: StarkHash,
    pub compiled_class_hash: StarkHash,
    pub offset_version: bool,
}

#[derive(Clone, Debug, PartialEq, Eq)]
pub enum DeclareTransaction {
    V0(DeclareTransactionV0),
    V1(DeclareTransactionV1),
    V2(DeclareTransactionV2),
}

#[derive(Clone, Debug, PartialEq, Eq)]
pub struct DeployAccountTransaction {
    pub max_fee: u128,
    pub signature: Vec<StarkHash>,
    pub nonce: StarkHash,
    pub contract_address_salt: StarkHash,
    pub constructor_calldata: Vec<StarkHash>,
    pub class_hash: StarkHash,
    pub offset_version: bool,
}

#[derive(Clone, Debug, PartialEq, Eq)]
pub struct DeployTransaction {
    pub version: StarkHash,
    pub class_hash: StarkHash,
    pub contract_address_salt: StarkHash,
    pub constructor_calldata: Vec<StarkHash>,
}

/// An inbound message from the settlement layer, to be executed exactly
/// once; its nonce keys the fee-dedup ledger.
#[derive(Clone, Debug, PartialEq, Eq)]
pub struct HandleL1MessageTransaction {
    pub nonce: u64,
    pub contract_address: StarkHash,
    pub entry_point_selector: StarkHash,
    pub calldata: Vec<StarkHash>,
}

/// A transaction submitted by a user.
#[derive(Clone, Debug, PartialEq, Eq)]
pub enum UserTransaction {
    Declare(DeclareTransaction, ContractClass),
    DeployAccount(DeployAccountTransaction),
    Deploy(DeployTransaction),
    Invoke(InvokeTransaction),
}

/// Any transaction of the chain.
#[derive(Clone, Debug, PartialEq, Eq)]
pub enum Transaction {
    Declare(DeclareTransaction),
    DeployAccount(DeployAccountTransaction),
    Deploy(DeployTransaction),
    Invoke(InvokeTransaction),
    L1Handler(HandleL1MessageTransaction),
}

/// A user transaction, or an inbound settlement-layer message with the fee
/// paid for it there.
#[derive(Clone, Debug, PartialEq, Eq)]
pub enum UserOrL1HandlerTransaction {
    User(UserTransaction),
    L1Handler(HandleL1MessageTransaction, u128),
}

/// The kind of a user transaction. A plain deploy is treated as an account
/// deployment here, as the surrounding client does.
pub open spec fn spec_user_tx_type(tx: UserTransaction) -> TxType {
    match tx {
        UserTransaction::Declare(..) => TxType::Declare,
        UserTransaction::DeployAccount(_) => TxType::DeployAccount,
        UserTransaction::Deploy(_) => TxType::DeployAccount,
        UserTransaction::Invoke(_) => TxType::Invoke,
    }
}

/// The kind of any submitted transaction.
pub open spec fn spec_tx_type(tx: UserOrL1HandlerTransaction) -> TxType {
    match tx {
        UserOrL1HandlerTransaction::User(user) => spec_user_tx_type(user),
        UserOrL1HandlerTransaction::L1Handler(..) => TxType::L1Handler,
    }
}

impl<'a> From<&'a UserTransaction> for TxType {
    fn from(value: &'a UserTransaction) -> (r: TxType) {
        match value {
            UserTransaction::Declare(..) => TxType::Declare,
            UserTransaction::DeployAccount(_) => TxType::DeployAccount,
            UserTransaction::Deploy(_) => TxType::DeployAccount,
            UserTransaction::Invoke(_) => TxType::Invoke,
        }
    }
}

impl<'a> vstd::std_specs::convert::FromSpecImpl<&'a UserTransaction> for TxType {
    open spec fn obeys_from_spec() -> bool {
        true
    }

    open spec fn from_spec(value: &'a UserTransaction) -> TxType {
        spec_user_tx_type(*value)
    }
}

impl<'a> From<&'a UserOrL1HandlerTransaction> for TxType {
    fn from(value: &'a UserOrL1HandlerTransaction) -> (r: TxType) {
        match value {
            UserOrL1HandlerTransaction::User(tx) => TxType::from(tx),
            UserOrL1HandlerTransaction::L1Handler(..) => TxType::L1Handler,
        }
    }
}

impl<'a> vstd::std_specs::convert::FromSpecImpl<&'a UserOrL1HandlerTransaction> for TxType {
    open spec fn obeys_from_spec() -> bool {
        true
    }

    open spec fn from_spec(value: &'a UserOrL1HandlerTransaction) -> TxType {
        spec_tx_type(*value)
    }
}

} // verus!
