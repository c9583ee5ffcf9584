//! The adapter instance: its lifecycle state machine, its capability flags,
//! and the notification entry points that gate extraction on both.
use vstd::prelude::*;
use crate::extract::{
    account_outcome, block_outcome, entry_outcome, extract_account, extract_block,
    extract_entry, extract_transaction, transaction_outcome, view_result, AccountRecord,
    BlockRecord, EntryRecord, PluginError, TransactionRecord,
};
use crate::kinds::{CapabilitySet, EventKind};
use crate::payload::{
    AccountPayload, BlockPayload, EntryPayload, SlotState, TransactionPayload,
};

verus! {

#[derive(Debug, Clone, Copy, PartialEq, Eq, Structural)]
pub enum Phase {
    /// Created, not yet loaded.
    Unloaded,
    /// Loaded; startup replay may still be running.
    Loaded,
    /// Loaded, and the host has signalled the end of startup replay.
    StartupDone,
    /// Unloaded after use; terminal.
    Terminated,
}

/// The canonical slot-status record.
#[derive(Debug, Clone, Copy, PartialEq, Eq, Structural)]
pub struct SlotRecord {
    pub slot: u64,
    pub parent: Option<u64>,
    pub status: SlotState,
}

pub struct Adapter {
    phase: Phase,
    capabilities: CapabilitySet,
}

pub open spec fn phase_is_active(p: Phase) -> bool {
    p == Phase::Loaded || p == Phase::StartupDone
}

impl Adapter {
    pub closed spec fn phase_spec(&self) -> Phase {
        self.phase
    }

    pub closed spec fn capabilities_spec(&self) -> CapabilitySet {
        self.capabilities
    }

    /// Notifications are served between load and unload.
    pub open spec fn is_active(&self) -> bool {
        phase_is_active(self.phase_spec())
    }

    /// Notifications of `kind` are served.
    pub open spec fn serves(&self, kind: EventKind) -> bool {
        self.is_active() && self.capabilities_spec().allows(kind)
    }

    /// Why a notification of `kind` is refused before its payload is read.
    pub open spec fn gate_error(&self, kind: EventKind) -> PluginError {
        if !self.is_active() {
            PluginError::NotActive
        } else {
            PluginError::KindDisabled
        }
    }

    /// A fresh instance with every kind enabled.
    pub fn new() -> (r: Adapter)
        ensures
            r.phase_spec() == Phase::Unloaded,
            forall|k: EventKind| r.capabilities_spec().allows(k),
    {
        Adapter { phase: Phase::Unloaded, capabilities: CapabilitySet::all_enabled() }
    }

    /// A fresh instance with the given flags.
    pub fn with_capabilities(capabilities: CapabilitySet) -> (r: Adapter)
        ensures
            r.phase_spec() == Phase::Unloaded,
            r.capabilities_spec() == capabilities,
    {
        Adapter { phase: Phase::Unloaded, capabilities }
    }

    pub fn name(&self) -> (r: &'static str)
        ensures
            r@ == "GeyserPluginImpl"@,
    {
        "GeyserPluginImpl"
    }

    pub fn phase(&self) -> (r: Phase)
        ensures
            r == self.phase_spec(),
    {
        self.phase
    }

    pub fn capabilities(&self) -> (r: CapabilitySet)
        ensures
            r == self.capabilities_spec(),
    {
        self.capabilities
    }

    /// Loads the instance. Succeeds once, from the unloaded phase only; the
    /// configuration itself is read by the host-side shell.
    pub fn on_load(&mut self, _config_file: &str, _is_reload: bool) -> (r: Result<(), PluginError>)
        ensures
            final(self).capabilities_spec() == old(self).capabilities_spec(),
            old(self).phase_spec() == Phase::Unloaded ==> r is Ok && final(self).phase_spec()
                == Phase::Loaded,
            old(self).phase_spec() != Phase::Unloaded ==> r == Err::<(), PluginError>(
                PluginError::NotActive,
            ) && final(self).phase_spec() == old(self).phase_spec(),
    {
        if self.phase != Phase::Unloaded {
            return Err(PluginError::NotActive);
        }
        self.phase = Phase::Loaded;
        Ok(())
    }

    /// Marks the end of startup replay.
    pub fn notify_end_of_startup(&mut self) -> (r: Result<(), PluginError>)
        ensures
            final(self).capabilities_spec() == old(self).capabilities_spec(),
            old(self).is_active() ==> r is Ok && final(self).phase_spec() == Phase::StartupDone,
            !old(self).is_active() ==> r == Err::<(), PluginError>(PluginError::NotActive)
                && final(self).phase_spec() == old(self).phase_spec(),
    {
        if !(self.phase == Phase::Loaded || self.phase == Phase::StartupDone) {
            return Err(PluginError::NotActive);
        }
        self.phase = Phase::StartupDone;
        Ok(())
    }

    /// Unloads the instance; no notification is served afterwards.
    pub fn on_unload(&mut self) -> (r: Result<(), PluginError>)
        ensures
            final(self).capabilities_spec() == old(self).capabilities_spec(),
            old(self).is_active() ==> r is Ok && final(self).phase_spec() == Phase::Terminated,
            !old(self).is_active() ==> r == Err::<(), PluginError>(PluginError::NotActive)
                && final(self).phase_spec() == old(self).phase_spec(),
            !final(self).is_active(),
    {
        if !(self.phase == Phase::Loaded || self.phase == Phase::StartupDone) {
            return Err(PluginError::NotActive);
        }
        self.phase = Phase::Terminated;
        Ok(())
    }

    /// Whether the host should engage notifications of `kind`.
    pub fn capability_enabled(&self, kind: EventKind) -> (r: bool)
        ensures
            r == self.capabilities_spec().allows(kind),
    {
        self.capabilities.enabled(kind)
    }

    pub fn account_data_notifications_enabled(&self) -> (r: bool)
        ensures
            r == self.capabilities_spec().allows(EventKind::AccountUpdate),
    {
        self.capability_enabled(EventKind::AccountUpdate)
    }

    pub fn transaction_notifications_enabled(&self) -> (r: bool)
        ensures
            r == self.capabilities_spec().allows(EventKind::Transaction),
    {
        self.capability_enabled(EventKind::Transaction)
    }

    pub fn entry_notifications_enabled(&self) -> (r: bool)
        ensures
            r == self.capabilities_spec().allows(EventKind::Entry),
    {
        self.capability_enabled(EventKind::Entry)
    }

    fn gate(&self, kind: EventKind) -> (r: Result<(), PluginError>)
        ensures
            self.serves(kind) ==> r is Ok,
            !self.serves(kind) ==> r == Err::<(), PluginError>(self.gate_error(kind)),
    {
        if !(self.phase == Phase::Loaded || self.phase == Phase::StartupDone) {
            return Err(PluginError::NotActive);
        }
        if !self.capabilities.enabled(kind) {
            return Err(PluginError::KindDisabled);
        }
        Ok(())
    }

    /// An account write; `is_startup` marks events replayed from persisted state.
    pub fn update_account(&self, account: AccountPayload, slot: u64, is_startup: bool) -> (r:
        Result<AccountRecord, PluginError>)
        ensures
            !self.serves(EventKind::AccountUpdate) ==> r == Err::<AccountRecord, PluginError>(
                self.gate_error(EventKind::AccountUpdate),
            ),
            self.serves(EventKind::AccountUpdate) ==> view_result(r) == account_outcome(
                account,
                slot,
                is_startup,
            ),
    {
        match self.gate(EventKind::AccountUpdate) {
            Err(e) => Err(e),
            Ok(()) => extract_account(account, slot, is_startup),
        }
    }

    /// A slot-status transition.
    pub fn update_slot_status(&self, slot: u64, parent: Option<u64>, status: SlotState) -> (r:
        Result<SlotRecord, PluginError>)
        ensures
            !self.serves(EventKind::SlotStatus) ==> r == Err::<SlotRecord, PluginError>(
                self.gate_error(EventKind::SlotStatus),
            ),
            self.serves(EventKind::SlotStatus) ==> r == Ok::<SlotRecord, PluginError>(
                SlotRecord { slot, parent, status },
            ),
    {
        match self.gate(EventKind::SlotStatus) {
            Err(e) => Err(e),
            Ok(()) => Ok(SlotRecord { slot, parent, status }),
        }
    }

    /// A transaction.
    pub fn notify_transaction(&self, transaction: TransactionPayload, slot: u64) -> (r: Result<
        TransactionRecord,
        PluginError,
    >)
        ensures
            !self.serves(EventKind::Transaction) ==> r == Err::<TransactionRecord, PluginError>(
                self.gate_error(EventKind::Transaction),
            ),
            self.serves(EventKind::Transaction) ==> view_result(r) == transaction_outcome(
                transaction,
                slot,
            ),
    {
        match self.gate(EventKind::Transaction) {
            Err(e) => Err(e),
            Ok(()) => extract_transaction(transaction, slot),
        }
    }

    /// A ledger entry.
    pub fn notify_entry(&self, entry: EntryPayload) -> (r: Result<EntryRecord, PluginError>)
        ensures
            !self.serves(EventKind::Entry) ==> r == Err::<EntryRecord, PluginError>(
                self.gate_error(EventKind::Entry),
            ),
            self.serves(EventKind::Entry) ==> view_result(r) == entry_outcome(entry),
    {
        match self.gate(EventKind::Entry) {
            Err(e) => Err(e),
            Ok(()) => extract_entry(entry),
        }
    }

    /// Block metadata.
    pub fn notify_block_metadata(&self, blockinfo: BlockPayload) -> (r: Result<
        BlockRecord,
        PluginError,
    >)
        ensures
            !self.serves(EventKind::BlockMetadata) ==> r == Err::<BlockRecord, PluginError>(
                self.gate_error(EventKind::BlockMetadata),
            ),
            self.serves(EventKind::BlockMetadata) ==> view_result(r) == block_outcome(blockinfo),
    {
        match self.gate(EventKind::BlockMetadata) {
            Err(e) => Err(e),
            Ok(()) => extract_block(blockinfo),
        }
    }
}

} // verus!
