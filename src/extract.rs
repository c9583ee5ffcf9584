//! Canonical records, and the extractors that collapse every supported wire
//! version of an event into one of them.
use vstd::prelude::*;
use crate::encode::{
    bytes_equal, hash_text, hash_text_of, pubkey_text, pubkey_text_of, signature_text,
    signature_text_of, HASH_BYTES, PUBKEY_BYTES, SIGNATURE_BYTES,
};
use crate::payload::{
    AccountPayload, BlockPayload, EntryPayload, RewardEntry, TransactionPayload,
};

verus! {

#[derive(Debug, Clone, Copy, PartialEq, Eq, Structural)]
pub enum PluginError {
    /// The payload's wire version is retired.
    UnsupportedVersion,
    /// A cross-field consistency check failed.
    InvariantViolation,
    /// A fixed-width buffer has the wrong length.
    MalformedInput,
    /// A notification arrived outside the loaded phase.
    NotActive,
    /// A notification arrived for a kind that is switched off.
    KindDisabled,
}

/// A result with its success value seen through its view.
pub open spec fn view_result<T: View>(r: Result<T, PluginError>) -> Result<T::V, PluginError> {
    match r {
        Ok(v) => Ok(v@),
        Err(e) => Err(e),
    }
}

pub open spec fn opt_bytes(o: Option<Vec<u8>>) -> Option<Seq<u8>> {
    match o {
        Some(v) => Some(v@),
        None => None,
    }
}

pub open spec fn opt_text(o: Option<String>) -> Option<Seq<char>> {
    match o {
        Some(s) => Some(s@),
        None => None,
    }
}

// ---------------------------------------------------------------- accounts

#[derive(Debug, Clone, PartialEq, Eq)]
pub struct AccountRecord {
    pub slot: u64,
    pub pubkey: String,
    pub owner: String,
    pub lamports: u64,
    pub executable: bool,
    pub rent_epoch: u64,
    pub data: Vec<u8>,
    pub write_version: u64,
    pub txn_signature: Option<String>,
    pub is_startup: bool,
}

pub struct AccountRecordView {
    pub slot: u64,
    pub pubkey: Seq<char>,
    pub owner: Seq<char>,
    pub lamports: u64,
    pub executable: bool,
    pub rent_epoch: u64,
    pub data: Seq<u8>,
    pub write_version: u64,
    pub txn_signature: Option<Seq<char>>,
    pub is_startup: bool,
}

impl View for AccountRecord {
    type V = AccountRecordView;

    open spec fn view(&self) -> AccountRecordView {
        AccountRecordView {
            slot: self.slot,
            pubkey: self.pubkey@,
            owner: self.owner@,
            lamports: self.lamports,
            executable: self.executable,
            rent_epoch: self.rent_epoch,
            data: self.data@,
            write_version: self.write_version,
            txn_signature: opt_text(self.txn_signature),
            is_startup: self.is_startup,
        }
    }
}

/// The canonical account record built from the fields shared by the
/// supported versions, or the reason there is none.
pub open spec fn account_fields(
    pubkey: Seq<u8>,
    lamports: u64,
    owner: Seq<u8>,
    executable: bool,
    rent_epoch: u64,
    data: Seq<u8>,
    write_version: u64,
    txn_signature: Option<Seq<u8>>,
    slot: u64,
    is_startup: bool,
) -> Result<AccountRecordView, PluginError> {
    if pubkey.len() != PUBKEY_BYTES || owner.len() != PUBKEY_BYTES || (txn_signature is Some
        && txn_signature->0.len() != SIGNATURE_BYTES) {
        Err(PluginError::MalformedInput)
    } else {
        Ok(
            AccountRecordView {
                slot,
                pubkey: pubkey_text_of(pubkey),
                owner: pubkey_text_of(owner),
                lamports,
                executable,
                rent_epoch,
                data,
                write_version,
                txn_signature: match txn_signature {
                    Some(s) => Some(signature_text_of(s)),
                    None => None,
                },
                is_startup,
            },
        )
    }
}

/// What extracting an account payload yields. The first version is retired.
pub open spec fn account_outcome(p: AccountPayload, slot: u64, is_startup: bool) -> Result<
    AccountRecordView,
    PluginError,
> {
    match p {
        AccountPayload::V1(_) => Err(PluginError::UnsupportedVersion),
        AccountPayload::V2(i) => account_fields(
            i.pubkey@,
            i.lamports,
            i.owner@,
            i.executable,
            i.rent_epoch,
            i.data@,
            i.write_version,
            opt_bytes(i.txn_signature),
            slot,
            is_startup,
        ),
        AccountPayload::V3(i) => account_fields(
            i.pubkey@,
            i.lamports,
            i.owner@,
            i.executable,
            i.rent_epoch,
            i.data@,
            i.write_version,
            match i.txn {
                Some(t) => Some(t.signature@),
                None => None,
            },
            slot,
            is_startup,
        ),
    }
}

fn build_account(
    pubkey: Vec<u8>,
    lamports: u64,
    owner: Vec<u8>,
    executable: bool,
    rent_epoch: u64,
    data: Vec<u8>,
    write_version: u64,
    txn_signature: Option<Vec<u8>>,
    slot: u64,
    is_startup: bool,
) -> (r: Result<AccountRecord, PluginError>)
    ensures
        view_result(r) == account_fields(
            pubkey@,
            lamports,
            owner@,
            executable,
            rent_epoch,
            data@,
            write_version,
            opt_bytes(txn_signature),
            slot,
            is_startup,
        ),
{
    if pubkey.len() != PUBKEY_BYTES || owner.len() != PUBKEY_BYTES {
        return Err(PluginError::MalformedInput);
    }
    let txn_text = match &txn_signature {
        Some(s) => {
            if s.len() != SIGNATURE_BYTES {
                return Err(PluginError::MalformedInput);
            }
            Some(signature_text(s))
        },
        None => None,
    };
    let record = AccountRecord {
        slot,
        pubkey: pubkey_text(&pubkey),
        owner: pubkey_text(&owner),
        lamports,
        executable,
        rent_epoch,
        data,
        write_version,
        txn_signature: txn_text,
        is_startup,
    };
    Ok(record)
}

/// Collapses any supported account payload into the canonical record.
pub fn extract_account(p: AccountPayload, slot: u64, is_startup: bool) -> (r: Result<
    AccountRecord,
    PluginError,
>)
    ensures
        view_result(r) == account_outcome(p, slot, is_startup),
{
    match p {
        AccountPayload::V1(_) => Err(PluginError::UnsupportedVersion),
        AccountPayload::V2(i) => build_account(
            i.pubkey,
            i.lamports,
            i.owner,
            i.executable,
            i.rent_epoch,
            i.data,
            i.write_version,
            i.txn_signature,
            slot,
            is_startup,
        ),
        AccountPayload::V3(i) => {
            let sig = match i.txn {
                Some(t) => Some(t.signature),
                None => None,
            };
            build_account(
                i.pubkey,
                i.lamports,
                i.owner,
                i.executable,
                i.rent_epoch,
                i.data,
                i.write_version,
                sig,
                slot,
                is_startup,
            )
        },
    }
}

// ------------------------------------------------------------ transactions

#[derive(Debug, Clone, PartialEq, Eq)]
pub struct TransactionRecord {
    pub slot: u64,
    pub signature: String,
    pub is_vote: bool,
    /// The index in the block; absent from the first wire version.
    pub index: Option<usize>,
}

pub struct TransactionRecordView {
    pub slot: u64,
    pub signature: Seq<char>,
    pub is_vote: bool,
    pub index: Option<usize>,
}

impl View for TransactionRecord {
    type V = TransactionRecordView;

    open spec fn view(&self) -> TransactionRecordView {
        TransactionRecordView {
            slot: self.slot,
            signature: self.signature@,
            is_vote: self.is_vote,
            index: self.index,
        }
    }
}

/// The canonical transaction record: the payload's signature must have the
/// signature width and equal the embedded transaction's first signature.
pub open spec fn transaction_fields(
    signature: Seq<u8>,
    embedded: Seq<u8>,
    is_vote: bool,
    index: Option<usize>,
    slot: u64,
) -> Result<TransactionRecordView, PluginError> {
    if signature.len() != SIGNATURE_BYTES {
        Err(PluginError::MalformedInput)
    } else if signature != embedded {
        Err(PluginError::InvariantViolation)
    } else {
        Ok(TransactionRecordView { slot, signature: signature_text_of(signature), is_vote, index })
    }
}

/// What extracting a transaction payload yields. Both versions are supported.
pub open spec fn transaction_outcome(p: TransactionPayload, slot: u64) -> Result<
    TransactionRecordView,
    PluginError,
> {
    match p {
        TransactionPayload::V1(i) => transaction_fields(
            i.signature@,
            i.transaction.signature@,
            i.is_vote,
            None,
            slot,
        ),
        TransactionPayload::V2(i) => transaction_fields(
            i.signature@,
            i.transaction.signature@,
            i.is_vote,
            Some(i.index),
            slot,
        ),
    }
}

fn build_transaction(
    signature: Vec<u8>,
    embedded: Vec<u8>,
    is_vote: bool,
    index: Option<usize>,
    slot: u64,
) -> (r: Result<TransactionRecord, PluginError>)
    ensures
        view_result(r) == transaction_fields(signature@, embedded@, is_vote, index, slot),
{
    if signature.len() != SIGNATURE_BYTES {
        return Err(PluginError::MalformedInput);
    }
    if !bytes_equal(&signature, &embedded) {
        return Err(PluginError::InvariantViolation);
    }
    Ok(TransactionRecord { slot, signature: signature_text(&signature), is_vote, index })
}

/// Collapses any supported transaction payload into the canonical record,
/// refusing one whose signature disagrees with its embedded transaction.
pub fn extract_transaction(p: TransactionPayload, slot: u64) -> (r: Result<
    TransactionRecord,
    PluginError,
>)
    ensures
        view_result(r) == transaction_outcome(p, slot),
{
    match p {
        TransactionPayload::V1(i) => build_transaction(
            i.signature,
            i.transaction.signature,
            i.is_vote,
            None,
            slot,
        ),
        TransactionPayload::V2(i) => build_transaction(
            i.signature,
            i.transaction.signature,
            i.is_vote,
            Some(i.index),
            slot,
        ),
    }
}

// ----------------------------------------------------------------- entries

#[derive(Debug, Clone, PartialEq, Eq)]
pub struct EntryRecord {
    pub slot: u64,
    pub index: usize,
    pub num_hashes: u64,
    pub hash: String,
    pub executed_transaction_count: u64,
    /// The index in the block of the entry's first transaction; absent from
    /// the first wire version.
    pub starting_transaction_index: Option<usize>,
}

pub struct EntryRecordView {
    pub slot: u64,
    pub index: usize,
    pub num_hashes: u64,
    pub hash: Seq<char>,
    pub executed_transaction_count: u64,
    pub starting_transaction_index: Option<usize>,
}

impl View for EntryRecord {
    type V = EntryRecordView;

    open spec fn view(&self) -> EntryRecordView {
        EntryRecordView {
            slot: self.slot,
            index: self.index,
            num_hashes: self.num_hashes,
            hash: self.hash@,
            executed_transaction_count: self.executed_transaction_count,
            starting_transaction_index: self.starting_transaction_index,
        }
    }
}

pub open spec fn entry_fields(
    slot: u64,
    index: usize,
    num_hashes: u64,
    hash: Seq<u8>,
    executed_transaction_count: u64,
    starting_transaction_index: Option<usize>,
) -> Result<EntryRecordView, PluginError> {
    if hash.len() != HASH_BYTES {
        Err(PluginError::MalformedInput)
    } else {
        Ok(
            EntryRecordView {
                slot,
                index,
                num_hashes,
                hash: hash_text_of(hash),
                executed_transaction_count,
                starting_transaction_index,
            },
        )
    }
}

/// What extracting an entry payload yields. Both versions are supported.
pub open spec fn entry_outcome(p: EntryPayload) -> Result<EntryRecordView, PluginError> {
    match p {
        EntryPayload::V1(i) => entry_fields(
            i.slot,
            i.index,
            i.num_hashes,
            i.hash@,
            i.executed_transaction_count,
            None,
        ),
        EntryPayload::V2(i) => entry_fields(
            i.slot,
            i.index,
            i.num_hashes,
            i.hash@,
            i.executed_transaction_count,
            Some(i.starting_transaction_index),
        ),
    }
}

fn build_entry(
    slot: u64,
    index: usize,
    num_hashes: u64,
    hash: Vec<u8>,
    executed_transaction_count: u64,
    starting_transaction_index: Option<usize>,
) -> (r: Result<EntryRecord, PluginError>)
    ensures
        view_result(r) == entry_fields(
            slot,
            index,
            num_hashes,
            hash@,
            executed_transaction_count,
            starting_transaction_index,
        ),
{
    if hash.len() != HASH_BYTES {
        return Err(PluginError::MalformedInput);
    }
    Ok(
        EntryRecord {
            slot,
            index,
            num_hashes,
            hash: hash_text(&hash),
            executed_transaction_count,
            starting_transaction_index,
        },
    )
}

/// Collapses any supported entry payload into the canonical record.
pub fn extract_entry(p: EntryPayload) -> (r: Result<EntryRecord, PluginError>)
    ensures
        view_result(r) == entry_outcome(p),
{
    match p {
        EntryPayload::V1(i) => build_entry(
            i.slot,
            i.index,
            i.num_hashes,
            i.hash,
            i.executed_transaction_count,
            None,
        ),
        EntryPayload::V2(i) => build_entry(
            i.slot,
            i.index,
            i.num_hashes,
            i.hash,
            i.executed_transaction_count,
            Some(i.starting_transaction_index),
        ),
    }
}

// ------------------------------------------------------------------ blocks

#[derive(Debug, Clone, PartialEq, Eq)]
pub struct BlockRecord {
    pub parent_slot: u64,
    pub parent_blockhash: String,
    pub slot: u64,
    pub blockhash: String,
    pub rewards: Vec<RewardEntry>,
    pub block_time: Option<i64>,
    pub block_height: Option<u64>,
    pub executed_transaction_count: u64,
    /// The number of entries in the block; absent from the second wire
    /// version.
    pub entry_count: Option<u64>,
}

pub struct BlockRecordView {
    pub parent_slot: u64,
    pub parent_blockhash: Seq<char>,
    pub slot: u64,
    pub blockhash: Seq<char>,
    pub rewards: Seq<RewardEntry>,
    pub block_time: Option<i64>,
    pub block_height: Option<u64>,
    pub executed_transaction_count: u64,
    pub entry_count: Option<u64>,
}

impl View for BlockRecord {
    type V = BlockRecordView;

    open spec fn view(&self) -> BlockRecordView {
        BlockRecordView {
            parent_slot: self.parent_slot,
            parent_blockhash: self.parent_blockhash@,
            slot: self.slot,
            blockhash: self.blockhash@,
            rewards: self.rewards@,
            block_time: self.block_time,
            block_height: self.block_height,
            executed_transaction_count: self.executed_transaction_count,
            entry_count: self.entry_count,
        }
    }
}

/// What extracting a block payload yields. The first version, which carries
/// no parent, is retired.
pub open spec fn block_outcome(p: BlockPayload) -> Result<BlockRecordView, PluginError> {
    match p {
        BlockPayload::V1(_) => Err(PluginError::UnsupportedVersion),
        BlockPayload::V2(i) => Ok(
            BlockRecordView {
                parent_slot: i.parent_slot,
                parent_blockhash: i.parent_blockhash@,
                slot: i.slot,
                blockhash: i.blockhash@,
                rewards: i.rewards@,
                block_time: i.block_time,
                block_height: i.block_height,
                executed_transaction_count: i.executed_transaction_count,
                entry_count: None,
            },
        ),
        BlockPayload::V3(i) => Ok(
            BlockRecordView {
                parent_slot: i.parent_slot,
                parent_blockhash: i.parent_blockhash@,
                slot: i.slot,
                blockhash: i.blockhash@,
                rewards: i.rewards@,
                block_time: i.block_time,
                block_height: i.block_height,
                executed_transaction_count: i.executed_transaction_count,
                entry_count: Some(i.entry_count),
            },
        ),
    }
}

/// Collapses any supported block payload into the canonical record.
pub fn extract_block(p: BlockPayload) -> (r: Result<BlockRecord, PluginError>)
    ensures
        view_result(r) == block_outcome(p),
{
    match p {
        BlockPayload::V1(_) => Err(PluginError::UnsupportedVersion),
        BlockPayload::V2(i) => Ok(
            BlockRecord {
                parent_slot: i.parent_slot,
                parent_blockhash: i.parent_blockhash,
                slot: i.slot,
                blockhash: i.blockhash,
                rewards: i.rewards,
                block_time: i.block_time,
                block_height: i.block_height,
                executed_transaction_count: i.executed_transaction_count,
                entry_count: None,
            },
        ),
        BlockPayload::V3(i) => Ok(
            BlockRecord {
                parent_slot: i.parent_slot,
                parent_blockhash: i.parent_blockhash,
                slot: i.slot,
                blockhash: i.blockhash,
                rewards: i.rewards,
                block_time: i.block_time,
                block_height: i.block_height,
                executed_transaction_count: i.executed_transaction_count,
                entry_count: Some(i.entry_count),
            },
        ),
    }
}

} // verus!
