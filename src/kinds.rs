use vstd::prelude::*;

verus! {

/// The closed set of event kinds that the host reports.
#[derive(Debug, Clone, Copy, PartialEq, Eq, Structural)]
pub enum EventKind {
    AccountUpdate,
    SlotStatus,
    Transaction,
    Entry,
    BlockMetadata,
}

/// Per-kind enablement flags, fixed for the lifetime of an adapter instance.
#[derive(Debug, Clone, Copy, PartialEq, Eq, Structural)]
pub struct CapabilitySet {
    pub account_update: bool,
    pub slot_status: bool,
    pub transaction: bool,
    pub entry: bool,
    pub block_metadata: bool,
}

impl CapabilitySet {
    /// Whether notifications of `kind` are wanted.
    pub open spec fn allows(self, kind: EventKind) -> bool {
        match kind {
            EventKind::AccountUpdate => self.account_update,
            EventKind::SlotStatus => self.slot_status,
            EventKind::Transaction => self.transaction,
            EventKind::Entry => self.entry,
            EventKind::BlockMetadata => self.block_metadata,
        }
    }

    /// The default policy: every kind that has a handler is enabled.
    pub fn all_enabled() -> (r: CapabilitySet)
        ensures
            forall|k: EventKind| r.allows(k),
    {
        CapabilitySet {
            account_update: true,
            slot_status: true,
            transaction: true,
            entry: true,
            block_metadata: true,
        }
    }

    pub fn enabled(&self, kind: EventKind) -> (r: bool)
        ensures
            r == self.allows(kind),
    {
        match kind {
            EventKind::AccountUpdate => self.account_update,
            EventKind::SlotStatus => self.slot_status,
            EventKind::Transaction => self.transaction,
            EventKind::Entry => self.entry,
            EventKind::BlockMetadata => self.block_metadata,
        }
    }
}

} // verus!
