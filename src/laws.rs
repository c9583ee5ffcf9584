//! Properties that relate the wire versions of one event kind.
use vstd::prelude::*;
use crate::encode::{signature_text_of, SIGNATURE_BYTES};
use crate::extract::{
    account_outcome, block_outcome, entry_outcome, transaction_outcome, AccountRecordView,
    BlockRecordView, EntryRecordView, PluginError, TransactionRecordView,
};
use crate::payload::{
    AccountInfoV1, AccountInfoV2, AccountInfoV3, AccountPayload, BlockInfoV1, BlockInfoV2,
    BlockInfoV3, BlockPayload, EntryInfoV1, EntryInfoV2, EntryPayload, TransactionInfoV1,
    TransactionInfoV2, TransactionPayload,
};

verus! {

/// Two account payloads of the supported versions that describe the same
/// write (same addresses, counts, data, and causing-transaction signature)
/// yield the same canonical record, or the same error.
pub proof fn lemma_account_versions_agree(
    a: AccountInfoV2,
    b: AccountInfoV3,
    slot: u64,
    is_startup: bool,
)
    requires
        a.pubkey@ == b.pubkey@,
        a.lamports == b.lamports,
        a.owner@ == b.owner@,
        a.executable == b.executable,
        a.rent_epoch == b.rent_epoch,
        a.data@ == b.data@,
        a.write_version == b.write_version,
        a.txn_signature is Some <==> b.txn is Some,
        a.txn_signature is Some ==> a.txn_signature->0@ == b.txn->0.signature@,
    ensures
        account_outcome(AccountPayload::V2(a), slot, is_startup) == account_outcome(
            AccountPayload::V3(b),
            slot,
            is_startup,
        ),
{
}

/// Two transaction payloads that describe the same transaction yield the same
/// canonical record, except that the older version leaves the block index
/// absent.
pub proof fn lemma_transaction_versions_agree(a: TransactionInfoV1, b: TransactionInfoV2, slot: u64)
    requires
        a.signature@ == b.signature@,
        a.is_vote == b.is_vote,
        a.transaction.signature@ == b.transaction.signature@,
    ensures
        transaction_outcome(TransactionPayload::V1(a), slot) == match transaction_outcome(
            TransactionPayload::V2(b),
            slot,
        ) {
            Ok(rec) => Ok(TransactionRecordView { index: None, ..rec }),
            Err(e) => Err(e),
        },
        transaction_outcome(TransactionPayload::V2(b), slot) is Ok ==> transaction_outcome(
            TransactionPayload::V2(b),
            slot,
        )->Ok_0.index == Some(b.index),
{
}

/// Two entry payloads that describe the same entry yield the same canonical
/// record, except that the older version leaves the starting transaction
/// index absent.
pub proof fn lemma_entry_versions_agree(a: EntryInfoV1, b: EntryInfoV2)
    requires
        a.slot == b.slot,
        a.index == b.index,
        a.num_hashes == b.num_hashes,
        a.hash@ == b.hash@,
        a.executed_transaction_count == b.executed_transaction_count,
    ensures
        entry_outcome(EntryPayload::V1(a)) == match entry_outcome(EntryPayload::V2(b)) {
            Ok(rec) => Ok(EntryRecordView { starting_transaction_index: None, ..rec }),
            Err(e) => Err(e),
        },
{
}

/// Two supported block payloads that describe the same block yield the same
/// canonical record, except that the older version leaves the entry count
/// absent.
pub proof fn lemma_block_versions_agree(a: BlockInfoV2, b: BlockInfoV3)
    requires
        a.parent_slot == b.parent_slot,
        a.parent_blockhash@ == b.parent_blockhash@,
        a.slot == b.slot,
        a.blockhash@ == b.blockhash@,
        a.rewards@ == b.rewards@,
        a.block_time == b.block_time,
        a.block_height == b.block_height,
        a.executed_transaction_count == b.executed_transaction_count,
    ensures
        block_outcome(BlockPayload::V2(a)) == match block_outcome(BlockPayload::V3(b)) {
            Ok(rec) => Ok(BlockRecordView { entry_count: None, ..rec }),
            Err(e) => Err(e),
        },
        block_outcome(BlockPayload::V3(b)) is Ok,
{
}

/// A payload of a retired version is always refused as unsupported, whatever
/// it holds.
pub proof fn lemma_retired_versions_refused(
    a: AccountInfoV1,
    b: BlockInfoV1,
    slot: u64,
    is_startup: bool,
)
    ensures
        account_outcome(AccountPayload::V1(a), slot, is_startup) == Err::<
            AccountRecordView,
            PluginError,
        >(PluginError::UnsupportedVersion),
        block_outcome(BlockPayload::V1(b)) == Err::<BlockRecordView, PluginError>(
            PluginError::UnsupportedVersion,
        ),
{
}

/// Every accepted transaction carries the signature of its embedded
/// transaction, and a well-formed payload whose signature differs from it is
/// refused as an invariant violation.
pub proof fn lemma_transaction_signature_invariant(p: TransactionPayload, slot: u64)
    ensures
        transaction_outcome(p, slot) is Ok ==> p.signature_spec() == p.embedded_signature_spec()
            && transaction_outcome(p, slot)->Ok_0.signature == signature_text_of(
            p.embedded_signature_spec(),
        ),
        p.signature_spec().len() == SIGNATURE_BYTES && p.signature_spec()
            != p.embedded_signature_spec() ==> transaction_outcome(p, slot) == Err::<
            TransactionRecordView,
            PluginError,
        >(PluginError::InvariantViolation),
{
}

} // verus!
