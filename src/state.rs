use crate::bitmap::paid_below;
use vstd::prelude::*;

verus! {

/// A 32-byte account address or signer identity.
pub type Address = [u8; 32];

/// Leaf indices the paid bitmap can track.
pub const BITMAP_CAPACITY: u16 = 1024;

/// Bounds on the global batch timeout, in seconds.
pub const MIN_BATCH_TIMEOUT_SECS: u64 = 3600;
pub const MAX_BATCH_TIMEOUT_SECS: u64 = 2592000;

/// The all-zero address, which stands for "unset".
pub open spec fn zero_address() -> Seq<u8> {
    Seq::new(32, |i: int| 0u8)
}

/// Compares two addresses byte by byte.
pub fn same_address(a: &Address, b: &Address) -> (r: bool)
    ensures
        r == (a@ == b@),
{
    for i in 0..32
        invariant
            forall|j: int| 0 <= j < i ==> a@[j] == b@[j],
    {
        if a[i] != b[i] {
            return false;
        }
    }
    assert(a@ =~= b@);
    true
}

/// Whether an address is the all-zero default.
pub fn is_zero_address(a: &Address) -> (r: bool)
    ensures
        r == (a@ == zero_address()),
{
    for i in 0..32
        invariant
            forall|j: int| 0 <= j < i ==> a@[j] == 0u8,
    {
        if a[i] != 0 {
            assert(a@[i as int] != zero_address()[i as int]);
            return false;
        }
    }
    assert(a@ =~= zero_address());
    true
}

/// Program-wide settings, owned by governance.
#[derive(Clone, Copy, Debug)]
pub struct VeilConfig {
    /// The signer allowed to execute claims.
    pub er_authority: Address,
    /// The signer allowed to change this configuration.
    pub governance: Address,
    /// Emergency halt: while set, no mutating operation succeeds.
    pub paused: bool,
    pub max_recipients: u16,
    /// The only asset vaults may hold.
    pub allowed_mint: Address,
    pub batch_timeout_secs: u64,
}

/// One employer's custodial balance, split into free and committed funds.
#[derive(Clone, Copy, Debug)]
pub struct VaultAccount {
    pub employer: Address,
    /// The token account that holds the vault's funds.
    pub vault_ata: Address,
    pub token_mint: Address,
    /// Funds the employer may withdraw or commit to a schedule.
    pub available: u64,
    /// Funds committed to schedules.
    pub reserved: u64,
    pub bump: u8,
}

impl VaultAccount {
    /// Conservation: the two partitions add up to what custody holds.
    pub open spec fn conserves(self, balance: u64) -> bool {
        self.available + self.reserved == balance
    }
}

/// What the logic reads of a token account.
#[derive(Clone, Copy, Debug)]
pub struct TokenAccount {
    pub address: Address,
    pub mint: Address,
    pub owner: Address,
    pub amount: u64,
}

#[derive(Clone, Copy, Debug, PartialEq, Eq, Structural)]
pub enum ScheduleStatus {
    Active,
    Paused,
    Cancelled,
}

/// A recurring disbursement: funds reserved from a vault, paid out cycle by
/// cycle to the recipients committed to by `merkle_root`.
#[derive(Clone, Copy, Debug)]
pub struct ScheduleAccount {
    pub employer: Address,
    pub vault: Address,
    pub status: ScheduleStatus,
    pub interval_secs: u64,
    /// Earliest time, in unix seconds, at which the current cycle may be claimed.
    pub next_execution: u64,
    /// Funds still earmarked for this schedule.
    pub reserved_amount: u64,
    /// Total paid out over one full cycle.
    pub per_execution_amount: u64,
    /// Correlation token of the off-ledger job that produced the root.
    pub er_job_id: [u8; 32],
    pub merkle_root: [u8; 32],
    pub total_recipients: u16,
    pub paid_count: u16,
    /// Bit `i` is set once leaf `i` has been paid in the current cycle.
    pub paid_bitmap: [u8; 128],
    /// Number of completed cycles.
    pub last_executed_batch: u64,
    pub bump: u8,
}

impl ScheduleAccount {
    /// Well-formedness: a positive interval, and a cycle in flight whose paid
    /// count is the number of marked leaves, short of the recipient count.
    pub open spec fn wf(self) -> bool {
        &&& self.interval_secs > 0
        &&& self.paid_count < self.total_recipients
        &&& self.paid_count == paid_below(self.paid_bitmap@, self.total_recipients as int)
    }
}

} // verus!
