use crate::state::Address;
use vstd::prelude::*;

verus! {

/// Records emitted by successful operations, for off-ledger auditing.
#[derive(Clone, Copy, Debug)]
pub struct ConfigInitialized {
    pub governance: Address,
    pub er_authority: Address,
    pub allowed_mint: Address,
    pub max_recipients: u16,
}

#[derive(Clone, Copy, Debug)]
pub struct ProgramPaused {
    pub governance: Address,
    pub timestamp: i64,
}

#[derive(Clone, Copy, Debug)]
pub struct ProgramUnpaused {
    pub governance: Address,
    pub timestamp: i64,
}

#[derive(Clone, Copy, Debug)]
pub struct ErAuthorityUpdated {
    pub governance: Address,
    pub old_er_authority: Address,
    pub new_er_authority: Address,
    pub timestamp: i64,
}

#[derive(Clone, Copy, Debug)]
pub struct VaultInitialized {
    pub employer: Address,
    pub vault: Address,
    pub vault_ata: Address,
    pub token_mint: Address,
}

#[derive(Clone, Copy, Debug)]
pub struct VaultDeposited {
    pub vault: Address,
    pub employer: Address,
    pub amount: u64,
    pub available: u64,
}

#[derive(Clone, Copy, Debug)]
pub struct VaultWithdrawn {
    pub vault: Address,
    pub employer: Address,
    pub amount: u64,
    pub available: u64,
}

#[derive(Clone, Copy, Debug)]
pub struct VaultDelegated {
    pub vault: Address,
    pub er_authority: Address,
    pub timestamp: i64,
}

#[derive(Clone, Copy, Debug)]
pub struct VaultUndelegated {
    pub vault: Address,
    pub er_authority: Address,
    pub timestamp: i64,
}

#[derive(Clone, Copy, Debug)]
pub struct ScheduleCreated {
    pub employer: Address,
    pub vault: Address,
    pub schedule: Address,
    pub reserved_amount: u64,
    pub interval_secs: u64,
    pub next_execution: u64,
}

#[derive(Clone, Copy, Debug)]
pub struct ScheduleCancelled {
    pub employer: Address,
    pub schedule: Address,
    pub returned_amount: u64,
}

#[derive(Clone, Copy, Debug)]
pub struct SchedulePaused {
    pub employer: Address,
    pub schedule: Address,
    pub timestamp: i64,
}

#[derive(Clone, Copy, Debug)]
pub struct ScheduleResumed {
    pub employer: Address,
    pub schedule: Address,
    pub timestamp: i64,
}

#[derive(Clone, Copy, Debug)]
pub struct PaymentClaimed {
    pub schedule: Address,
    pub recipient: Address,
    pub amount: u64,
    pub leaf_index: u16,
    pub paid_count: u16,
}

#[derive(Clone, Copy, Debug)]
pub struct ScheduleDelegated {
    pub schedule: Address,
    pub timestamp: i64,
}

#[derive(Clone, Copy, Debug)]
pub struct ScheduleUndelegated {
    pub schedule: Address,
    pub timestamp: i64,
}

#[derive(Clone, Copy, Debug)]
pub struct StateCommitted {
    pub account: Address,
    pub timestamp: i64,
}

} // verus!
