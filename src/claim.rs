use crate::bitmap::{
    bit_is_set, cleared, is_paid, lemma_paid_below_cleared, lemma_paid_below_with_paid,
    lemma_with_paid, set_bit, with_paid,
};
use crate::error::VeilProgramError;
use crate::events::PaymentClaimed;
use crate::merkle::{hash_leaf, leaf_hash, proof_verifies, proof_view, verify_merkle_proof};
use crate::state::{
    same_address, Address, ScheduleAccount, ScheduleStatus, TokenAccount, VaultAccount,
    VeilConfig, BITMAP_CAPACITY,
};
use vstd::prelude::*;

verus! {

/// The accounts a claim reads and writes.
#[derive(Clone, Copy, Debug)]
pub struct ClaimPayment {
    /// The signer executing the claim.
    pub er_authority: Address,
    pub config: VeilConfig,
    pub vault: VaultAccount,
    /// The vault's custodial token account, the source of the payment.
    pub vault_ata: TokenAccount,
    pub schedule_key: Address,
    pub schedule: ScheduleAccount,
    /// The recipient's token account, the destination of the payment.
    pub recipient_ata: TokenAccount,
}

impl ClaimPayment {
    /// Whether the claim being made is the last one of its cycle.
    pub open spec fn completes_cycle(self) -> bool {
        self.schedule.paid_count + 1 >= self.schedule.total_recipients
    }

    /// The first check a claim fails, in the order they are made; `None` when
    /// the claim goes through.
    pub open spec fn claim_error(
        self,
        recipient: Address,
        amount: u64,
        leaf_index: u16,
        proof: Seq<Seq<u8>>,
        now: u64,
    ) -> Option<VeilProgramError> {
        let s = self.schedule;
        if self.config.paused {
            Some(VeilProgramError::Paused)
        } else if self.vault_ata.address@ != self.vault.vault_ata@ {
            Some(VeilProgramError::InvalidTokenAccount)
        } else if self.er_authority@ != self.config.er_authority@ {
            Some(VeilProgramError::Unauthorized)
        } else if s.status != ScheduleStatus::Active {
            Some(VeilProgramError::ScheduleNotActive)
        } else if now < s.next_execution {
            Some(VeilProgramError::ExecutionTooEarly)
        } else if leaf_index >= s.total_recipients {
            Some(VeilProgramError::InvalidLeafIndex)
        } else if self.recipient_ata.owner@ != recipient@ {
            Some(VeilProgramError::Unauthorized)
        } else if self.recipient_ata.mint@ != self.vault.token_mint@ {
            Some(VeilProgramError::InvalidMint)
        } else if !proof_verifies(
            leaf_hash(recipient@, amount),
            proof,
            leaf_index as nat,
            s.merkle_root@,
        ) {
            Some(VeilProgramError::InvalidMerkleProof)
        } else if leaf_index >= BITMAP_CAPACITY {
            Some(VeilProgramError::InvalidLeafIndex)
        } else if is_paid(s.paid_bitmap@, leaf_index as int) {
            Some(VeilProgramError::AlreadyPaid)
        } else if amount == 0 || amount > s.per_execution_amount {
            Some(VeilProgramError::InsufficientFunds)
        } else if s.paid_count + 1 > u16::MAX {
            Some(VeilProgramError::InsufficientFunds)
        } else if self.completes_cycle() && (s.reserved_amount < s.per_execution_amount
            || self.vault.reserved < s.per_execution_amount || now + s.interval_secs > u64::MAX
            || s.last_executed_batch + 1 > u64::MAX) {
            Some(VeilProgramError::InsufficientFunds)
        } else {
            None
        }
    }

    /// `new` is this state after a successful claim of `leaf_index` at `now`:
    /// the leaf is marked and counted, and the last claim of a cycle releases
    /// the cycle's funds from the reservation and starts the next cycle.
    pub open spec fn claimed(self, new: Self, leaf_index: u16, now: u64) -> bool {
        let s = self.schedule;
        &&& new == (ClaimPayment { schedule: new.schedule, vault: new.vault, ..self })
        &&& if self.completes_cycle() {
            &&& new.schedule == (ScheduleAccount {
                reserved_amount: (s.reserved_amount - s.per_execution_amount) as u64,
                paid_count: 0,
                paid_bitmap: new.schedule.paid_bitmap,
                next_execution: (now + s.interval_secs) as u64,
                last_executed_batch: (s.last_executed_batch + 1) as u64,
                ..s
            })
            &&& new.schedule.paid_bitmap@ == cleared(128)
            &&& new.vault == (VaultAccount {
                reserved: (self.vault.reserved - s.per_execution_amount) as u64,
                ..self.vault
            })
        } else {
            &&& new.schedule == (ScheduleAccount {
                paid_count: (s.paid_count + 1) as u16,
                paid_bitmap: new.schedule.paid_bitmap,
                ..s
            })
            &&& new.schedule.paid_bitmap@ == with_paid(s.paid_bitmap@, leaf_index as int)
            &&& new.vault == self.vault
        }
    }

    /// Pays `amount` to `recipient` for leaf `leaf_index` of the current cycle,
    /// once `proof` shows that the leaf is committed to by the schedule's root.
    /// On success the caller transfers `amount` from the vault's token account
    /// to the recipient's, signed by the vault.
    pub fn claim_payment(
        &mut self,
        recipient: Address,
        amount: u64,
        leaf_index: u16,
        proof: Vec<[u8; 32]>,
        now: u64,
    ) -> (r: Result<PaymentClaimed, VeilProgramError>)
        ensures
            match r {
                Ok(event) => {
                    &&& old(self).claim_error(recipient, amount, leaf_index, proof_view(proof@), now)
                        is None
                    &&& old(self).claimed(*final(self), leaf_index, now)
                    &&& event == (PaymentClaimed {
                        schedule: old(self).schedule_key,
                        recipient,
                        amount,
                        leaf_index,
                        paid_count: final(self).schedule.paid_count,
                    })
                },
                Err(e) => {
                    &&& old(self).claim_error(recipient, amount, leaf_index, proof_view(proof@), now)
                        == Some(e)
                    &&& *final(self) == *old(self)
                },
            },
            old(self).schedule.wf() ==> final(self).schedule.wf(),
    {
        if self.config.paused {
            return Err(VeilProgramError::Paused);
        }
        if !same_address(&self.vault_ata.address, &self.vault.vault_ata) {
            return Err(VeilProgramError::InvalidTokenAccount);
        }
        if !same_address(&self.er_authority, &self.config.er_authority) {
            return Err(VeilProgramError::Unauthorized);
        }
        if self.schedule.status != ScheduleStatus::Active {
            return Err(VeilProgramError::ScheduleNotActive);
        }
        if now < self.schedule.next_execution {
            return Err(VeilProgramError::ExecutionTooEarly);
        }
        if leaf_index >= self.schedule.total_recipients {
            return Err(VeilProgramError::InvalidLeafIndex);
        }
        if !same_address(&self.recipient_ata.owner, &recipient) {
            return Err(VeilProgramError::Unauthorized);
        }
        if !same_address(&self.recipient_ata.mint, &self.vault.token_mint) {
            return Err(VeilProgramError::InvalidMint);
        }
        let leaf = hash_leaf(&recipient, amount);
        if !verify_merkle_proof(leaf, proof.as_slice(), leaf_index, self.schedule.merkle_root) {
            return Err(VeilProgramError::InvalidMerkleProof);
        }
        if leaf_index >= BITMAP_CAPACITY {
            return Err(VeilProgramError::InvalidLeafIndex);
        }
        if bit_is_set(&self.schedule.paid_bitmap, leaf_index) {
            return Err(VeilProgramError::AlreadyPaid);
        }
        if amount == 0 || amount > self.schedule.per_execution_amount {
            return Err(VeilProgramError::InsufficientFunds);
        }
        let paid_count = match self.schedule.paid_count.checked_add(1) {
            Some(c) => c,
            None => return Err(VeilProgramError::InsufficientFunds),
        };
        let ghost old_schedule = self.schedule;
        proof {
            lemma_with_paid(old_schedule.paid_bitmap@, leaf_index as int, 0);
            if old_schedule.wf() {
                lemma_paid_below_with_paid(
                    old_schedule.paid_bitmap@,
                    old_schedule.total_recipients as int,
                    leaf_index as int,
                );
            }
        }
        if paid_count >= self.schedule.total_recipients {
            let per_execution = self.schedule.per_execution_amount;
            let reserved_amount = match self.schedule.reserved_amount.checked_sub(per_execution) {
                Some(v) => v,
                None => return Err(VeilProgramError::InsufficientFunds),
            };
            let vault_reserved = match self.vault.reserved.checked_sub(per_execution) {
                Some(v) => v,
                None => return Err(VeilProgramError::InsufficientFunds),
            };
            let next_execution = match now.checked_add(self.schedule.interval_secs) {
                Some(v) => v,
                None => return Err(VeilProgramError::InsufficientFunds),
            };
            let batch = match self.schedule.last_executed_batch.checked_add(1) {
                Some(v) => v,
                None => return Err(VeilProgramError::InsufficientFunds),
            };
            self.schedule.reserved_amount = reserved_amount;
            self.vault.reserved = vault_reserved;
            self.schedule.paid_count = 0;
            self.schedule.paid_bitmap = [0u8; 128];
            self.schedule.next_execution = next_execution;
            self.schedule.last_executed_batch = batch;
            assert(self.schedule.paid_bitmap@ =~= cleared(128));
            proof {
                lemma_paid_below_cleared(128, self.schedule.total_recipients as int);
            }
        } else {
            set_bit(&mut self.schedule.paid_bitmap, leaf_index);
            self.schedule.paid_count = paid_count;
        }
        Ok(
            PaymentClaimed {
                schedule: self.schedule_key,
                recipient,
                amount,
                leaf_index,
                paid_count: self.schedule.paid_count,
            },
        )
    }
}

/// Within a cycle a mark is never cleared: a successful claim that leaves the
/// cycle open keeps every mark and adds its own leaf's; only the claim that
/// completes the cycle clears the bitmap, and it starts the next cycle. Either
/// way a well-formed schedule stays well-formed, so the paid count never
/// exceeds the recipient count.
pub proof fn lemma_claim_keeps_marks(
    c: ClaimPayment,
    new: ClaimPayment,
    recipient: Address,
    amount: u64,
    leaf_index: u16,
    proof: Seq<Seq<u8>>,
    now: u64,
    other: int,
)
    requires
        c.claim_error(recipient, amount, leaf_index, proof, now) is None,
        c.claimed(new, leaf_index, now),
    ensures
        !c.completes_cycle() ==> is_paid(new.schedule.paid_bitmap@, leaf_index as int),
        !c.completes_cycle() && is_paid(c.schedule.paid_bitmap@, other) ==> is_paid(
            new.schedule.paid_bitmap@,
            other,
        ),
        c.completes_cycle() ==> new.schedule.paid_bitmap@ == cleared(128)
            && new.schedule.last_executed_batch == c.schedule.last_executed_batch + 1,
        !c.completes_cycle() ==> new.schedule.last_executed_batch
            == c.schedule.last_executed_batch,
        c.schedule.wf() ==> new.schedule.wf() && new.schedule.paid_count
            <= new.schedule.total_recipients,
{
    let b = c.schedule.paid_bitmap@;
    lemma_with_paid(b, leaf_index as int, other);
    if c.schedule.wf() {
        if c.completes_cycle() {
            lemma_paid_below_cleared(128, c.schedule.total_recipients as int);
        } else {
            lemma_paid_below_with_paid(b, c.schedule.total_recipients as int, leaf_index as int);
        }
    }
}

/// A leaf already marked in the current cycle is never paid again: every
/// claim of it fails, whoever signs it and whatever proof comes with it.
pub proof fn lemma_paid_leaf_never_pays(
    c: ClaimPayment,
    recipient: Address,
    amount: u64,
    leaf_index: u16,
    proof: Seq<Seq<u8>>,
    now: u64,
)
    requires
        is_paid(c.schedule.paid_bitmap@, leaf_index as int),
    ensures
        c.claim_error(recipient, amount, leaf_index, proof, now) is Some,
{
}

/// Replaying a successful claim at once fails: as already paid while the
/// cycle is open, and as too early once that claim completed the cycle.
pub proof fn lemma_claim_replay_fails(
    c: ClaimPayment,
    new: ClaimPayment,
    recipient: Address,
    amount: u64,
    leaf_index: u16,
    proof: Seq<Seq<u8>>,
    now: u64,
)
    requires
        c.schedule.wf(),
        c.claim_error(recipient, amount, leaf_index, proof, now) is None,
        c.claimed(new, leaf_index, now),
    ensures
        !c.completes_cycle() ==> new.claim_error(recipient, amount, leaf_index, proof, now)
            == Some(VeilProgramError::AlreadyPaid),
        c.completes_cycle() ==> new.claim_error(recipient, amount, leaf_index, proof, now)
            == Some(VeilProgramError::ExecutionTooEarly),
{
    lemma_with_paid(c.schedule.paid_bitmap@, leaf_index as int, 0);
}

/// One claim as submitted: recipient, amount, leaf index, proof and time.
pub type ClaimRequest = (Address, u64, u16, Seq<Seq<u8>>, u64);

/// `new` follows from `c` by the successful claim `q`.
pub open spec fn claim_step(c: ClaimPayment, new: ClaimPayment, q: ClaimRequest) -> bool {
    &&& c.claim_error(q.0, q.1, q.2, q.3, q.4) is None
    &&& c.claimed(new, q.2, q.4)
}

/// `states` is a run of successful claims, the `k`-th taking `states[k]` to
/// `states[k + 1]`.
pub open spec fn claim_run(states: Seq<ClaimPayment>, requests: Seq<ClaimRequest>) -> bool {
    &&& states.len() == requests.len() + 1
    &&& forall|k: int|
        0 <= k < requests.len() ==> claim_step(states[k], states[k + 1], #[trigger] requests[k])
}

/// What a run of claims transferred out of custody.
pub open spec fn paid_out(requests: Seq<ClaimRequest>) -> int
    decreases requests.len(),
{
    if requests.len() == 0 {
        0
    } else {
        paid_out(requests.drop_last()) + requests.last().1
    }
}

/// The vault's books: available plus reserved funds.
pub open spec fn books(c: ClaimPayment) -> int {
    c.vault.available + c.vault.reserved
}

proof fn lemma_run_within_cycle(states: Seq<ClaimPayment>, requests: Seq<ClaimRequest>, k: int)
    requires
        claim_run(states, requests),
        states[0].schedule.paid_count == 0,
        requests.len() == states[0].schedule.total_recipients,
        0 <= k < requests.len(),
    ensures
        states[k].schedule.paid_count == k,
        states[k].schedule.total_recipients == states[0].schedule.total_recipients,
        states[k].schedule.per_execution_amount == states[0].schedule.per_execution_amount,
        states[k].vault == states[0].vault,
    decreases k,
{
    if k > 0 {
        lemma_run_within_cycle(states, requests, k - 1);
        assert(claim_step(states[k - 1], states[k], requests[k - 1]));
    }
}

/// Conservation across a cycle: a cycle's successful claims, one per
/// recipient, leave the vault's books lower by exactly the per-cycle amount,
/// while custody pays out what was claimed. So when books and custody agree
/// as the cycle opens and the claimed amounts add up to the per-cycle amount,
/// they agree again once it closes.
pub proof fn lemma_cycle_restores_conservation(
    states: Seq<ClaimPayment>,
    requests: Seq<ClaimRequest>,
    balance: u64,
)
    requires
        claim_run(states, requests),
        states[0].schedule.paid_count == 0,
        requests.len() == states[0].schedule.total_recipients,
        requests.len() > 0,
    ensures
        books(states.last()) == books(states[0]) - states[0].schedule.per_execution_amount,
        states[0].vault.conserves(balance) && paid_out(requests)
            == states[0].schedule.per_execution_amount ==> books(states.last()) == balance
            - paid_out(requests),
{
    let n = requests.len() as int;
    lemma_run_within_cycle(states, requests, n - 1);
    assert(claim_step(states[n - 1], states[n], requests[n - 1]));
}

} // verus!
