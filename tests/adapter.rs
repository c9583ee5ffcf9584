use geyser_plugin_log::extract::{
    extract_account, extract_block, extract_entry, extract_transaction, PluginError,
};
use geyser_plugin_log::kinds::{CapabilitySet, EventKind};
use geyser_plugin_log::lifecycle::{Adapter, Phase, SlotRecord};
use geyser_plugin_log::payload::{
    AccountInfoV1, AccountInfoV2, AccountInfoV3, AccountPayload, BlockInfoV1, BlockInfoV2,
    BlockInfoV3, BlockPayload, EntryInfoV1, EntryInfoV2, EntryPayload, RewardEntry, RewardKind,
    SlotState, TransactionInfoV1, TransactionInfoV2, TransactionPayload, TransactionSummary,
};
use solana_sdk::pubkey::Pubkey;
use solana_sdk::signature::Signature;

const ALL_KINDS: [EventKind; 5] = [
    EventKind::AccountUpdate,
    EventKind::SlotStatus,
    EventKind::Transaction,
    EventKind::Entry,
    EventKind::BlockMetadata,
];

fn pubkey_str(b: u8) -> String {
    Pubkey::new_from_array([b; 32]).to_string()
}

fn sig_str(b: u8) -> String {
    Signature::from([b; 64]).to_string()
}

fn account_v3(txn: Option<Vec<u8>>) -> AccountInfoV3 {
    AccountInfoV3 {
        pubkey: vec![1; 32],
        lamports: 500,
        owner: vec![2; 32],
        executable: false,
        rent_epoch: 3,
        data: vec![9, 8, 7],
        write_version: 7,
        txn: txn.map(|signature| TransactionSummary { signature }),
    }
}

fn account_v2(txn_signature: Option<Vec<u8>>) -> AccountInfoV2 {
    AccountInfoV2 {
        pubkey: vec![1; 32],
        lamports: 500,
        owner: vec![2; 32],
        executable: false,
        rent_epoch: 3,
        data: vec![9, 8, 7],
        write_version: 7,
        txn_signature,
    }
}

fn transaction_v2(sig: u8, embedded: u8, index: usize) -> TransactionInfoV2 {
    TransactionInfoV2 {
        signature: vec![sig; 64],
        is_vote: false,
        transaction: TransactionSummary { signature: vec![embedded; 64] },
        index,
    }
}

fn loaded() -> Adapter {
    let mut a = Adapter::new();
    assert_eq!(a.on_load("cfg.toml", false), Ok(()));
    a
}

fn block_v3() -> BlockInfoV3 {
    BlockInfoV3 {
        parent_slot: 41,
        parent_blockhash: "parenthash".to_string(),
        slot: 42,
        blockhash: "blockhash".to_string(),
        rewards: vec![RewardEntry {
            pubkey: "voter".to_string(),
            lamports: -5,
            post_balance: 95,
            reward_type: Some(RewardKind::Voting),
            commission: Some(10),
        }],
        block_time: Some(1_700_000_000),
        block_height: Some(40),
        executed_transaction_count: 12,
        entry_count: 64,
    }
}

#[test]
fn account_update_after_load_yields_one_record() {
    let adapter = loaded();
    let rec = adapter
        .update_account(AccountPayload::V3(account_v3(None)), 100, true)
        .unwrap();
    assert_eq!(rec.slot, 100);
    assert_eq!(rec.pubkey, pubkey_str(1));
    assert_eq!(rec.owner, pubkey_str(2));
    assert!(!rec.executable);
    assert_eq!(rec.write_version, 7);
    assert_eq!(rec.txn_signature, None);
    assert!(rec.is_startup);
    assert_eq!(rec.lamports, 500);
    assert_eq!(rec.data, vec![9, 8, 7]);
}

#[test]
fn zero_address_renders_as_base58_ones() {
    let mut info = account_v3(None);
    info.pubkey = vec![0; 32];
    let rec = extract_account(AccountPayload::V3(info), 1, false).unwrap();
    assert_eq!(rec.pubkey, "11111111111111111111111111111111");
}

#[test]
fn mismatched_transaction_signature_is_refused() {
    let adapter = loaded();
    let r = adapter.notify_transaction(TransactionPayload::V2(transaction_v2(1, 2, 0)), 5);
    assert_eq!(r, Err(PluginError::InvariantViolation));
}

#[test]
fn matching_transaction_signature_is_accepted() {
    let rec = extract_transaction(TransactionPayload::V2(transaction_v2(3, 3, 4)), 5).unwrap();
    assert_eq!(rec.signature, sig_str(3));
    assert_eq!(rec.index, Some(4));
    assert_eq!(rec.slot, 5);
    assert!(!rec.is_vote);
}

#[test]
fn short_transaction_signature_is_malformed() {
    let mut info = transaction_v2(3, 3, 4);
    info.signature = vec![3; 10];
    info.transaction.signature = vec![3; 10];
    let r = extract_transaction(TransactionPayload::V2(info), 5);
    assert_eq!(r, Err(PluginError::MalformedInput));
}

#[test]
fn unload_right_after_load_is_clean() {
    let mut adapter = loaded();
    assert_eq!(adapter.on_unload(), Ok(()));
    assert_eq!(adapter.phase(), Phase::Terminated);
    let r = adapter.update_account(AccountPayload::V3(account_v3(None)), 1, false);
    assert_eq!(r, Err(PluginError::NotActive));
    assert_eq!(adapter.on_unload(), Err(PluginError::NotActive));
    assert_eq!(adapter.on_load("cfg.toml", true), Err(PluginError::NotActive));
}

#[test]
fn notifications_before_load_are_refused() {
    let adapter = Adapter::new();
    assert_eq!(adapter.phase(), Phase::Unloaded);
    let r = adapter.notify_entry(EntryPayload::V1(EntryInfoV1 {
        slot: 1,
        index: 0,
        num_hashes: 1,
        hash: vec![0; 32],
        executed_transaction_count: 0,
    }));
    assert_eq!(r, Err(PluginError::NotActive));
    assert_eq!(
        adapter.update_slot_status(1, None, SlotState::Processed),
        Err(PluginError::NotActive)
    );
}

#[test]
fn end_of_startup_moves_to_steady_state() {
    let mut adapter = Adapter::new();
    assert_eq!(adapter.notify_end_of_startup(), Err(PluginError::NotActive));
    assert_eq!(adapter.on_load("cfg.toml", false), Ok(()));
    assert_eq!(adapter.phase(), Phase::Loaded);
    assert_eq!(adapter.notify_end_of_startup(), Ok(()));
    assert_eq!(adapter.phase(), Phase::StartupDone);
    assert_eq!(
        adapter.update_slot_status(9, Some(8), SlotState::Rooted),
        Ok(SlotRecord { slot: 9, parent: Some(8), status: SlotState::Rooted })
    );
}

#[test]
fn capabilities_stay_fixed_across_lifecycle() {
    let mut adapter = Adapter::new();
    let before: Vec<bool> = ALL_KINDS.iter().map(|k| adapter.capability_enabled(*k)).collect();
    assert_eq!(before, vec![true; 5]);
    adapter.on_load("cfg.toml", false).unwrap();
    adapter.notify_end_of_startup().unwrap();
    let during: Vec<bool> = ALL_KINDS.iter().map(|k| adapter.capability_enabled(*k)).collect();
    adapter.on_unload().unwrap();
    let after: Vec<bool> = ALL_KINDS.iter().map(|k| adapter.capability_enabled(*k)).collect();
    assert_eq!(before, during);
    assert_eq!(before, after);
    assert!(adapter.account_data_notifications_enabled());
    assert!(adapter.transaction_notifications_enabled());
    assert!(adapter.entry_notifications_enabled());
}

#[test]
fn disabled_kind_is_refused() {
    let caps = CapabilitySet {
        account_update: true,
        slot_status: true,
        transaction: false,
        entry: true,
        block_metadata: true,
    };
    let mut adapter = Adapter::with_capabilities(caps);
    adapter.on_load("cfg.toml", false).unwrap();
    assert!(!adapter.transaction_notifications_enabled());
    assert!(!adapter.capability_enabled(EventKind::Transaction));
    assert!(adapter.capability_enabled(EventKind::Entry));
    let r = adapter.notify_transaction(TransactionPayload::V2(transaction_v2(3, 3, 0)), 1);
    assert_eq!(r, Err(PluginError::KindDisabled));
}

#[test]
fn account_versions_normalize_alike() {
    let sig = vec![5u8; 64];
    let from_v2 = extract_account(AccountPayload::V2(account_v2(Some(sig.clone()))), 10, false);
    let from_v3 = extract_account(AccountPayload::V3(account_v3(Some(sig))), 10, false);
    assert_eq!(from_v2, from_v3);
    assert_eq!(from_v3.unwrap().txn_signature, Some(sig_str(5)));
}

#[test]
fn transaction_versions_normalize_alike() {
    let v1 = TransactionInfoV1 {
        signature: vec![6; 64],
        is_vote: true,
        transaction: TransactionSummary { signature: vec![6; 64] },
    };
    let mut v2 = transaction_v2(6, 6, 3);
    v2.is_vote = true;
    let a = extract_transaction(TransactionPayload::V1(v1), 2).unwrap();
    let mut b = extract_transaction(TransactionPayload::V2(v2), 2).unwrap();
    assert_eq!(a.index, None);
    assert_eq!(b.index, Some(3));
    b.index = None;
    assert_eq!(a, b);
}

#[test]
fn entry_versions_normalize_alike() {
    let v1 = EntryInfoV1 {
        slot: 3,
        index: 2,
        num_hashes: 12,
        hash: vec![4; 32],
        executed_transaction_count: 5,
    };
    let v2 = EntryInfoV2 {
        slot: 3,
        index: 2,
        num_hashes: 12,
        hash: vec![4; 32],
        executed_transaction_count: 5,
        starting_transaction_index: 17,
    };
    let a = extract_entry(EntryPayload::V1(v1)).unwrap();
    let mut b = extract_entry(EntryPayload::V2(v2)).unwrap();
    assert_eq!(a.hash, solana_sdk::hash::Hash::new_from_array([4; 32]).to_string());
    assert_eq!(a.starting_transaction_index, None);
    assert_eq!(b.starting_transaction_index, Some(17));
    b.starting_transaction_index = None;
    assert_eq!(a, b);
}

#[test]
fn entry_with_short_hash_is_malformed() {
    let v2 = EntryInfoV2 {
        slot: 3,
        index: 2,
        num_hashes: 12,
        hash: vec![4; 31],
        executed_transaction_count: 5,
        starting_transaction_index: 17,
    };
    assert_eq!(extract_entry(EntryPayload::V2(v2)), Err(PluginError::MalformedInput));
}

#[test]
fn block_versions_normalize_alike() {
    let v3 = block_v3();
    let v2 = BlockInfoV2 {
        parent_slot: v3.parent_slot,
        parent_blockhash: v3.parent_blockhash.clone(),
        slot: v3.slot,
        blockhash: v3.blockhash.clone(),
        rewards: v3.rewards.clone(),
        block_time: v3.block_time,
        block_height: v3.block_height,
        executed_transaction_count: v3.executed_transaction_count,
    };
    let a = extract_block(BlockPayload::V2(v2)).unwrap();
    let mut b = extract_block(BlockPayload::V3(v3)).unwrap();
    assert_eq!(a.entry_count, None);
    assert_eq!(b.entry_count, Some(64));
    assert_eq!(b.parent_slot, 41);
    assert_eq!(b.blockhash, "blockhash");
    assert_eq!(b.rewards.len(), 1);
    b.entry_count = None;
    assert_eq!(a, b);
}

#[test]
fn retired_versions_are_unsupported() {
    let old_account = AccountInfoV1 {
        pubkey: vec![1; 32],
        lamports: 1,
        owner: vec![2; 32],
        executable: true,
        rent_epoch: 0,
        data: vec![],
        write_version: 1,
    };
    let adapter = loaded();
    assert_eq!(
        adapter.update_account(AccountPayload::V1(old_account), 1, false),
        Err(PluginError::UnsupportedVersion)
    );
    let old_block = BlockInfoV1 {
        slot: 1,
        blockhash: "h".to_string(),
        rewards: vec![],
        block_time: None,
        block_height: None,
    };
    assert_eq!(
        adapter.notify_block_metadata(BlockPayload::V1(old_block)),
        Err(PluginError::UnsupportedVersion)
    );
}

#[test]
fn account_with_short_owner_is_malformed() {
    let mut info = account_v3(None);
    info.owner = vec![2; 31];
    assert_eq!(
        extract_account(AccountPayload::V3(info), 1, false),
        Err(PluginError::MalformedInput)
    );
    let bad_sig = account_v2(Some(vec![1; 63]));
    assert_eq!(
        extract_account(AccountPayload::V2(bad_sig), 1, false),
        Err(PluginError::MalformedInput)
    );
}

#[test]
fn payload_signature_of_either_version() {
    let v1 = TransactionPayload::V1(TransactionInfoV1 {
        signature: vec![8; 64],
        is_vote: false,
        transaction: TransactionSummary { signature: vec![9; 64] },
    });
    assert_eq!(v1.signature(), &vec![8u8; 64]);
    let v2 = TransactionPayload::V2(transaction_v2(7, 7, 0));
    assert_eq!(v2.signature(), &vec![7u8; 64]);
}

#[test]
fn adapter_name() {
    assert_eq!(Adapter::new().name(), "GeyserPluginImpl");
}
