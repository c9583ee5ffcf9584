//! The wire versions of each event kind, holding the host's values as plain
//! data. Variants are only ever added, never removed.
use vstd::prelude::*;

verus! {

/// What the adapter reads of a transaction embedded in a payload: its first
/// signature.
#[derive(Debug, Clone)]
pub struct TransactionSummary {
    pub signature: Vec<u8>,
}

/// Account update, first wire version.
#[derive(Debug, Clone)]
pub struct AccountInfoV1 {
    pub pubkey: Vec<u8>,
    pub lamports: u64,
    pub owner: Vec<u8>,
    pub executable: bool,
    pub rent_epoch: u64,
    pub data: Vec<u8>,
    pub write_version: u64,
}

/// Account update, extended with the signature of the causing transaction.
#[derive(Debug, Clone)]
pub struct AccountInfoV2 {
    pub pubkey: Vec<u8>,
    pub lamports: u64,
    pub owner: Vec<u8>,
    pub executable: bool,
    pub rent_epoch: u64,
    pub data: Vec<u8>,
    pub write_version: u64,
    pub txn_signature: Option<Vec<u8>>,
}

/// Account update, extended with the causing transaction itself.
#[derive(Debug, Clone)]
pub struct AccountInfoV3 {
    pub pubkey: Vec<u8>,
    pub lamports: u64,
    pub owner: Vec<u8>,
    pub executable: bool,
    pub rent_epoch: u64,
    pub data: Vec<u8>,
    pub write_version: u64,
    pub txn: Option<TransactionSummary>,
}

#[derive(Debug, Clone)]
pub enum AccountPayload {
    V1(AccountInfoV1),
    V2(AccountInfoV2),
    V3(AccountInfoV3),
}

/// Transaction, first wire version.
#[derive(Debug, Clone)]
pub struct TransactionInfoV1 {
    pub signature: Vec<u8>,
    pub is_vote: bool,
    pub transaction: TransactionSummary,
}

/// Transaction, extended with its index in the block.
#[derive(Debug, Clone)]
pub struct TransactionInfoV2 {
    pub signature: Vec<u8>,
    pub is_vote: bool,
    pub transaction: TransactionSummary,
    pub index: usize,
}

#[derive(Debug, Clone)]
pub enum TransactionPayload {
    V1(TransactionInfoV1),
    V2(TransactionInfoV2),
}

impl TransactionPayload {
    /// The identifying signature carried by the payload, whatever its version.
    pub open spec fn signature_spec(&self) -> Seq<u8> {
        match self {
            TransactionPayload::V1(i) => i.signature@,
            TransactionPayload::V2(i) => i.signature@,
        }
    }

    /// The first signature of the embedded transaction.
    pub open spec fn embedded_signature_spec(&self) -> Seq<u8> {
        match self {
            TransactionPayload::V1(i) => i.transaction.signature@,
            TransactionPayload::V2(i) => i.transaction.signature@,
        }
    }

    pub fn signature(&self) -> (r: &Vec<u8>)
        ensures
            r@ == self.signature_spec(),
    {
        match self {
            TransactionPayload::V1(i) => &i.signature,
            TransactionPayload::V2(i) => &i.signature,
        }
    }
}

/// Ledger entry, first wire version.
#[derive(Debug, Clone)]
pub struct EntryInfoV1 {
    pub slot: u64,
    pub index: usize,
    pub num_hashes: u64,
    pub hash: Vec<u8>,
    pub executed_transaction_count: u64,
}

/// Ledger entry, extended with the index of its first transaction.
#[derive(Debug, Clone)]
pub struct EntryInfoV2 {
    pub slot: u64,
    pub index: usize,
    pub num_hashes: u64,
    pub hash: Vec<u8>,
    pub executed_transaction_count: u64,
    pub starting_transaction_index: usize,
}

#[derive(Debug, Clone)]
pub enum EntryPayload {
    V1(EntryInfoV1),
    V2(EntryInfoV2),
}

#[derive(Debug, Clone, Copy, PartialEq, Eq, Structural)]
pub enum RewardKind {
    Fee,
    Rent,
    Staking,
    Voting,
}

/// One reward credited in a block.
#[derive(Debug, Clone, PartialEq, Eq)]
pub struct RewardEntry {
    pub pubkey: String,
    pub lamports: i64,
    pub post_balance: u64,
    pub reward_type: Option<RewardKind>,
    pub commission: Option<u8>,
}

/// Block metadata, first wire version.
#[derive(Debug, Clone)]
pub struct BlockInfoV1 {
    pub slot: u64,
    pub blockhash: String,
    pub rewards: Vec<RewardEntry>,
    pub block_time: Option<i64>,
    pub block_height: Option<u64>,
}

/// Block metadata, extended with the parent and the executed transaction count.
#[derive(Debug, Clone)]
pub struct BlockInfoV2 {
    pub parent_slot: u64,
    pub parent_blockhash: String,
    pub slot: u64,
    pub blockhash: String,
    pub rewards: Vec<RewardEntry>,
    pub block_time: Option<i64>,
    pub block_height: Option<u64>,
    pub executed_transaction_count: u64,
}

/// Block metadata, extended with the entry count.
#[derive(Debug, Clone)]
pub struct BlockInfoV3 {
    pub parent_slot: u64,
    pub parent_blockhash: String,
    pub slot: u64,
    pub blockhash: String,
    pub rewards: Vec<RewardEntry>,
    pub block_time: Option<i64>,
    pub block_height: Option<u64>,
    pub executed_transaction_count: u64,
    pub entry_count: u64,
}

#[derive(Debug, Clone)]
pub enum BlockPayload {
    V1(BlockInfoV1),
    V2(BlockInfoV2),
    V3(BlockInfoV3),
}

#[derive(Debug, Clone, Copy, PartialEq, Eq, Structural)]
pub enum SlotState {
    Processed,
    Rooted,
    Confirmed,
}

} // verus!
