//! Block headers of the chain and their hash input.
//!
//! The header hash itself is computed by a hasher the embedding client
//! supplies (Pedersen or Poseidon in practice); what this module pins down
//! is exactly which fields, in which order and with which placeholders, are
//! fed to it — including the layout used by the early blocks of the chain.

use crate::types::{ContractAddress, StarkHash};
use vstd::prelude::*;

verus! {

/// The block number from which the current hash layout applies; earlier
/// blocks keep the legacy layout.
pub const HASH_LAYOUT_SWITCH_BLOCK: u64 = 833;

/// Status of a block.
#[derive(Clone, Copy, Debug, PartialEq, Eq, Structural)]
pub enum BlockStatus {
    Pending,
    AcceptedOnL2,
    AcceptedOnL1,
    Rejected,
}

impl Default for BlockStatus {
    /// A block is accepted on the chain itself unless stated otherwise.
    fn default() -> (r: BlockStatus)
        ensures
            r == BlockStatus::AcceptedOnL2,
    {
        BlockStatus::AcceptedOnL2
    }
}

/// The L1 gas price the block was produced under.
#[derive(Clone, Copy, Debug, PartialEq, Eq, Structural)]
pub struct ResourcePrice {
    /// Price in the chain's own fee token.
    pub price_in_strk: u64,
    /// Price in the settlement layer's currency.
    pub price_in_wei: u64,
}

/// A hasher over field elements, supplied by the embedding client.
///
/// An implementation names what it computes in `spec_hash_on_elements`;
/// callers' contracts speak of that name, so what the backend proves is
/// which elements are hashed, not what the hash function itself returns.
pub trait HasherT {
    /// What this hasher computes on a sequence of elements.
    spec fn spec_hash_on_elements(&self, data: Seq<StarkHash>) -> StarkHash;

    /// Hash a sequence of elements.
    fn compute_hash_on_wrappers(&self, data: &Vec<StarkHash>) -> (r: StarkHash)
        ensures
            r == self.spec_hash_on_elements(data@),
    ;
}

/// The limb-wise exclusive-or of two hashes.
pub open spec fn spec_xor_hash(a: StarkHash, b: StarkHash) -> StarkHash {
    StarkHash {
        limb0: a.limb0 ^ b.limb0,
        limb1: a.limb1 ^ b.limb1,
        limb2: a.limb2 ^ b.limb2,
        limb3: a.limb3 ^ b.limb3,
    }
}

/// The fold the stand-in hasher computes.
pub open spec fn spec_fold_hash(data: Seq<StarkHash>) -> StarkHash
    decreases data.len(),
{
    if data.len() == 0 {
        StarkHash::spec_zero()
    } else {
        spec_xor_hash(spec_fold_hash(data.drop_last()), data.last())
    }
}

/// A stand-in hasher that folds its input with exclusive-or. It has none of
/// a cryptographic hash's properties; real clients supply Pedersen or
/// Poseidon implementations.
#[derive(Clone, Copy, Debug)]
pub struct XorHasher {}

impl HasherT for XorHasher {
    open spec fn spec_hash_on_elements(&self, data: Seq<StarkHash>) -> StarkHash {
        spec_fold_hash(data)
    }

    fn compute_hash_on_wrappers(&self, data: &Vec<StarkHash>) -> (r: StarkHash)
        ensures
            r == self.spec_hash_on_elements(data@),
    {
        let mut acc = StarkHash::zero();
        let mut i: usize = 0;
        while i < data.len()
            invariant
                i <= data@.len(),
                acc == spec_fold_hash(data@.take(i as int)),
            decreases data@.len() - i,
        {
            let d = &data[i];
            acc = StarkHash {
                limb0: acc.limb0 ^ d.limb0,
                limb1: acc.limb1 ^ d.limb1,
                limb2: acc.limb2 ^ d.limb2,
                limb3: acc.limb3 ^ d.limb3,
            };
            proof {
                let t = data@.take(i + 1 as int);
                assert(t.drop_last() =~= data@.take(i as int));
                assert(t.last() == data@[i as int]);
            }
            i = i + 1;
        }
        proof {
            assert(data@.take(data@.len() as int) =~= data@);
        }
        acc
    }
}

/// The `SN_MAIN` chain identifier as a field element: the ASCII bytes of
/// the name, read as a big-endian integer.
pub open spec fn spec_sn_main_chain_id() -> StarkHash {
    StarkHash::spec_from_u64(0x534e5f4d41494e)
}

/// The `SN_MAIN` chain identifier as a field element.
pub fn sn_main_chain_id() -> (r: StarkHash)
    ensures
        r == spec_sn_main_chain_id(),
{
    StarkHash::from_u64(0x534e5f4d41494e)
}

/// The execution context a block hands to the transaction-execution
/// engine: its identity, the sequencer, the fee token, and the execution
/// limits the chain runs under.
#[derive(Clone, Debug, PartialEq, Eq)]
pub struct BlockContext {
    pub chain_id: StarkHash,
    pub block_number: u64,
    pub block_timestamp: u64,
    pub sequencer_address: ContractAddress,
    /// Cost per VM resource; empty until resource pricing is configured.
    pub vm_resource_fee_cost: Vec<(String, u64)>,
    pub fee_token_address: ContractAddress,
    pub invoke_tx_max_n_steps: u32,
    pub validate_max_n_steps: u32,
    pub gas_price: u128,
    pub max_recursion_depth: u32,
}

/// A block header of the chain.
#[derive(Clone, Copy, Debug, PartialEq, Eq, Structural)]
pub struct Header {
    /// The hash of this block's parent.
    pub parent_block_hash: StarkHash,
    /// The number (height) of this block.
    pub block_number: u64,
    /// The state commitment after this block.
    pub global_state_root: StarkHash,
    /// The address of the sequencer who created this block.
    pub sequencer_address: ContractAddress,
    /// The time the sequencer created this block, before executing
    /// transactions.
    pub block_timestamp: u64,
    /// The number of transactions in the block.
    pub transaction_count: u128,
    /// A commitment to the transactions included in the block.
    pub transaction_commitment: StarkHash,
    /// The number of events produced in the block.
    pub event_count: u128,
    /// A commitment to the events produced in the block.
    pub event_commitment: StarkHash,
    /// The protocol version the block was created under.
    pub protocol_version: StarkHash,
    /// The L1 gas price for this block.
    pub l1_gas_price: ResourcePrice,
    /// Extraneous data that might be useful for running transactions.
    pub extra_data: Option<StarkHash>,
}

impl Header {
    /// Creates a new header.
    pub fn new(
        parent_block_hash: StarkHash,
        block_number: u64,
        global_state_root: StarkHash,
        sequencer_address: ContractAddress,
        block_timestamp: u64,
        transaction_count: u128,
        transaction_commitment: StarkHash,
        event_count: u128,
        event_commitment: StarkHash,
        protocol_version: StarkHash,
        l1_gas_price: ResourcePrice,
        extra_data: Option<StarkHash>,
    ) -> (r: Header)
        ensures
            r == (Header {
                parent_block_hash,
                block_number,
                global_state_root,
                sequencer_address,
                block_timestamp,
                transaction_count,
                transaction_commitment,
                event_count,
                event_commitment,
                protocol_version,
                l1_gas_price,
                extra_data,
            }),
    {
        Header {
            parent_block_hash,
            block_number,
            global_state_root,
            sequencer_address,
            block_timestamp,
            transaction_count,
            transaction_commitment,
            event_count,
            event_commitment,
            protocol_version,
            l1_gas_price,
            extra_data,
        }
    }

    /// Converts the header into the execution context of its block: the
    /// block's own identity fields carried over, the given fee token and
    /// chain, no resource pricing yet, and the chain's fixed execution
    /// limits.
    pub fn into_block_context(self, fee_token_address: ContractAddress, chain_id: StarkHash) -> (r:
        BlockContext)
        ensures
            r.chain_id == chain_id,
            r.block_number == self.block_number,
            r.block_timestamp == self.block_timestamp,
            r.sequencer_address == self.sequencer_address,
            r.vm_resource_fee_cost@ == Seq::<(String, u64)>::empty(),
            r.fee_token_address == fee_token_address,
            r.invoke_tx_max_n_steps == 1000000,
            r.validate_max_n_steps == 1000000,
            r.gas_price == 10,
            r.max_recursion_depth == 50,
    {
        BlockContext {
            chain_id,
            block_number: self.block_number,
            block_timestamp: self.block_timestamp,
            sequencer_address: self.sequencer_address,
            vm_resource_fee_cost: Vec::new(),
            fee_token_address,
            invoke_tx_max_n_steps: 1000000,
            validate_max_n_steps: 1000000,
            gas_price: 10,
            max_recursion_depth: 50,
        }
    }

    /// The exact sequence of field elements the header hash is computed
    /// over. Blocks from [`HASH_LAYOUT_SWITCH_BLOCK`] on use the current
    /// layout; earlier blocks blank most fields and bind the chain name
    /// instead.
    pub open spec fn spec_hash_input(h: Header) -> Seq<StarkHash> {
        if h.block_number >= HASH_LAYOUT_SWITCH_BLOCK {
            seq![
                StarkHash::spec_from_u64(h.block_number),
                h.global_state_root,
                h.sequencer_address.0,
                StarkHash::spec_from_u64(h.block_timestamp),
                StarkHash::spec_from_u128(h.transaction_count),
                h.transaction_commitment,
                StarkHash::spec_from_u128(h.event_count),
                h.event_commitment,
                StarkHash::spec_zero(),  // reserved: protocol version
                StarkHash::spec_zero(),  // reserved: extra data
                h.parent_block_hash,
            ]
        } else {
            seq![
                StarkHash::spec_from_u64(h.block_number),
                h.global_state_root,
                StarkHash::spec_zero(),
                StarkHash::spec_zero(),
                StarkHash::spec_from_u128(h.transaction_count),
                h.transaction_commitment,
                StarkHash::spec_zero(),
                StarkHash::spec_zero(),
                StarkHash::spec_zero(),
                StarkHash::spec_zero(),
                spec_sn_main_chain_id(),
                h.parent_block_hash,
            ]
        }
    }

    /// Compute the hash of the header: the supplied hasher applied to
    /// exactly the elements of [`Self::spec_hash_input`].
    pub fn hash<H: HasherT>(&self, hasher: &H) -> (r: StarkHash)
        ensures
            r == hasher.spec_hash_on_elements(Header::spec_hash_input(*self)),
    {
        let mut data: Vec<StarkHash> = Vec::new();
        if self.block_number >= HASH_LAYOUT_SWITCH_BLOCK {
            data.push(StarkHash::from_u64(self.block_number));
            data.push(self.global_state_root);
            data.push(self.sequencer_address.0);
            data.push(StarkHash::from_u64(self.block_timestamp));
            data.push(StarkHash::from_u128(self.transaction_count));
            data.push(self.transaction_commitment);
            data.push(StarkHash::from_u128(self.event_count));
            data.push(self.event_commitment);
            data.push(StarkHash::zero());
            data.push(StarkHash::zero());
            data.push(self.parent_block_hash);
        } else {
            data.push(StarkHash::from_u64(self.block_number));
            data.push(self.global_state_root);
            data.push(StarkHash::zero());
            data.push(StarkHash::zero());
            data.push(StarkHash::from_u128(self.transaction_count));
            data.push(self.transaction_commitment);
            data.push(StarkHash::zero());
            data.push(StarkHash::zero());
            data.push(StarkHash::zero());
            data.push(StarkHash::zero());
            data.push(sn_main_chain_id());
            data.push(self.parent_block_hash);
        }
        proof {
            assert(data@ =~= Header::spec_hash_input(*self));
        }
        hasher.compute_hash_on_wrappers(&data)
    }
}

} // verus!
