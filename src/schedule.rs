use crate::bitmap::{cleared, lemma_paid_below_cleared};
use crate::error::VeilProgramError;
use crate::events::{
    ScheduleCancelled, ScheduleCreated, ScheduleDelegated, SchedulePaused, ScheduleResumed,
    ScheduleUndelegated,
};
use crate::state::{same_address, Address, ScheduleAccount, ScheduleStatus, VaultAccount, VeilConfig};
use vstd::prelude::*;

verus! {

/// The accounts that creating a schedule reads and writes.
#[derive(Clone, Copy, Debug)]
pub struct CreateSchedule {
    /// The signer, who must own the vault.
    pub employer: Address,
    pub config: VeilConfig,
    pub vault_key: Address,
    pub vault: VaultAccount,
    pub schedule_key: Address,
    /// The schedule record, overwritten on success.
    pub schedule: ScheduleAccount,
}

impl CreateSchedule {
    /// The first check creating a schedule fails; `None` when it goes through.
    pub open spec fn create_error(
        self,
        interval_secs: u64,
        reserved_amount: u64,
        per_execution_amount: u64,
        total_recipients: u16,
        now: u64,
    ) -> Option<VeilProgramError> {
        if self.config.paused {
            Some(VeilProgramError::Paused)
        } else if self.vault.employer@ != self.employer@ {
            Some(VeilProgramError::Unauthorized)
        } else if interval_secs == 0 {
            Some(VeilProgramError::InvalidScheduleId)
        } else if reserved_amount == 0 || per_execution_amount == 0 {
            Some(VeilProgramError::InsufficientFunds)
        } else if total_recipients == 0 {
            Some(VeilProgramError::InvalidMaxRecipients)
        } else if reserved_amount > self.vault.available || per_execution_amount > reserved_amount {
            Some(VeilProgramError::InsufficientFunds)
        } else if now + interval_secs > u64::MAX || self.vault.reserved + reserved_amount
            > u64::MAX {
            Some(VeilProgramError::InsufficientFunds)
        } else {
            None
        }
    }

    /// Commits `reserved_amount` of the vault's available funds to a new
    /// schedule paying `per_execution_amount` per cycle to `total_recipients`
    /// leaves under `merkle_root`; the first cycle opens `interval_secs` after
    /// `now`.
    pub fn create_schedule(
        &mut self,
        interval_secs: u64,
        reserved_amount: u64,
        per_execution_amount: u64,
        merkle_root: [u8; 32],
        total_recipients: u16,
        er_job_id: [u8; 32],
        now: u64,
        bump: u8,
    ) -> (r: Result<ScheduleCreated, VeilProgramError>)
        ensures
            match r {
                Ok(event) => {
                    let o = *old(self);
                    &&& o.create_error(
                        interval_secs,
                        reserved_amount,
                        per_execution_amount,
                        total_recipients,
                        now,
                    ) is None
                    &&& *final(self) == (CreateSchedule {
                        vault: VaultAccount {
                            available: (o.vault.available - reserved_amount) as u64,
                            reserved: (o.vault.reserved + reserved_amount) as u64,
                            ..o.vault
                        },
                        schedule: final(self).schedule,
                        ..o
                    })
                    &&& final(self).schedule == (ScheduleAccount {
                        employer: o.employer,
                        vault: o.vault_key,
                        status: ScheduleStatus::Active,
                        interval_secs,
                        next_execution: (now + interval_secs) as u64,
                        reserved_amount,
                        per_execution_amount,
                        er_job_id,
                        merkle_root,
                        total_recipients,
                        paid_count: 0,
                        paid_bitmap: final(self).schedule.paid_bitmap,
                        last_executed_batch: 0,
                        bump,
                    })
                    &&& final(self).schedule.paid_bitmap@ == cleared(128)
                    &&& final(self).schedule.wf()
                    &&& final(self).vault.available + final(self).vault.reserved
                        == o.vault.available + o.vault.reserved
                    &&& event == (ScheduleCreated {
                        employer: o.employer,
                        vault: o.vault_key,
                        schedule: o.schedule_key,
                        reserved_amount,
                        interval_secs,
                        next_execution: (now + interval_secs) as u64,
                    })
                },
                Err(e) => {
                    &&& old(self).create_error(
                        interval_secs,
                        reserved_amount,
                        per_execution_amount,
                        total_recipients,
                        now,
                    ) == Some(e)
                    &&& *final(self) == *old(self)
                },
            },
    {
        if self.config.paused {
            return Err(VeilProgramError::Paused);
        }
        if !same_address(&self.vault.employer, &self.employer) {
            return Err(VeilProgramError::Unauthorized);
        }
        if interval_secs == 0 {
            return Err(VeilProgramError::InvalidScheduleId);
        }
        if reserved_amount == 0 || per_execution_amount == 0 {
            return Err(VeilProgramError::InsufficientFunds);
        }
        if total_recipients == 0 {
            return Err(VeilProgramError::InvalidMaxRecipients);
        }
        if reserved_amount > self.vault.available || per_execution_amount > reserved_amount {
            return Err(VeilProgramError::InsufficientFunds);
        }
        let next_execution = match now.checked_add(interval_secs) {
            Some(v) => v,
            None => return Err(VeilProgramError::InsufficientFunds),
        };
        let vault_reserved = match self.vault.reserved.checked_add(reserved_amount) {
            Some(v) => v,
            None => return Err(VeilProgramError::InsufficientFunds),
        };
        self.vault.available = self.vault.available - reserved_amount;
        self.vault.reserved = vault_reserved;
        self.schedule = ScheduleAccount {
            employer: self.employer,
            vault: self.vault_key,
            status: ScheduleStatus::Active,
            interval_secs,
            next_execution,
            reserved_amount,
            per_execution_amount,
            er_job_id,
            merkle_root,
            total_recipients,
            paid_count: 0,
            paid_bitmap: [0u8; 128],
            last_executed_batch: 0,
            bump,
        };
        assert(self.schedule.paid_bitmap@ =~= cleared(128));
        proof {
            lemma_paid_below_cleared(128, total_recipients as int);
        }
        Ok(
            ScheduleCreated {
                employer: self.employer,
                vault: self.vault_key,
                schedule: self.schedule_key,
                reserved_amount,
                interval_secs,
                next_execution,
            },
        )
    }
}

/// The accounts that cancelling a schedule reads and writes.
#[derive(Clone, Copy, Debug)]
pub struct CancelSchedule {
    /// The signer, who must own the vault and the schedule.
    pub employer: Address,
    pub config: VeilConfig,
    pub vault_key: Address,
    pub vault: VaultAccount,
    pub schedule_key: Address,
    pub schedule: ScheduleAccount,
}

impl CancelSchedule {
    /// The first check cancelling fails; `None` when it goes through.
    pub open spec fn cancel_error(self) -> Option<VeilProgramError> {
        let s = self.schedule;
        if self.config.paused {
            Some(VeilProgramError::Paused)
        } else if self.vault.employer@ != self.employer@ || s.employer@ != self.employer@ {
            Some(VeilProgramError::Unauthorized)
        } else if s.vault@ != self.vault_key@ {
            Some(VeilProgramError::VaultMismatch)
        } else if s.status == ScheduleStatus::Cancelled {
            Some(VeilProgramError::ScheduleAlreadyCancelled)
        } else if self.vault.reserved < s.reserved_amount || self.vault.available
            + s.reserved_amount > u64::MAX {
            Some(VeilProgramError::InsufficientFunds)
        } else {
            None
        }
    }

    /// Ends the schedule for good and returns what it still holds in reserve
    /// to the vault's available funds; what was already paid stays paid.
    pub fn cancel_schedule(&mut self) -> (r: Result<ScheduleCancelled, VeilProgramError>)
        ensures
            match r {
                Ok(event) => {
                    let o = *old(self);
                    &&& o.cancel_error() is None
                    &&& *final(self) == (CancelSchedule {
                        vault: VaultAccount {
                            available: (o.vault.available + o.schedule.reserved_amount) as u64,
                            reserved: (o.vault.reserved - o.schedule.reserved_amount) as u64,
                            ..o.vault
                        },
                        schedule: ScheduleAccount { status: ScheduleStatus::Cancelled, ..o.schedule },
                        ..o
                    })
                    &&& final(self).vault.available + final(self).vault.reserved
                        == o.vault.available + o.vault.reserved
                    &&& o.schedule.wf() ==> final(self).schedule.wf()
                    &&& event == (ScheduleCancelled {
                        employer: o.employer,
                        schedule: o.schedule_key,
                        returned_amount: o.schedule.reserved_amount,
                    })
                },
                Err(e) => {
                    &&& old(self).cancel_error() == Some(e)
                    &&& *final(self) == *old(self)
                },
            },
    {
        if self.config.paused {
            return Err(VeilProgramError::Paused);
        }
        if !same_address(&self.vault.employer, &self.employer) || !same_address(
            &self.schedule.employer,
            &self.employer,
        ) {
            return Err(VeilProgramError::Unauthorized);
        }
        if !same_address(&self.schedule.vault, &self.vault_key) {
            return Err(VeilProgramError::VaultMismatch);
        }
        if self.schedule.status == ScheduleStatus::Cancelled {
            return Err(VeilProgramError::ScheduleAlreadyCancelled);
        }
        let returned_amount = self.schedule.reserved_amount;
        let reserved = match self.vault.reserved.checked_sub(returned_amount) {
            Some(v) => v,
            None => return Err(VeilProgramError::InsufficientFunds),
        };
        let available = match self.vault.available.checked_add(returned_amount) {
            Some(v) => v,
            None => return Err(VeilProgramError::InsufficientFunds),
        };
        self.vault.reserved = reserved;
        self.vault.available = available;
        self.schedule.status = ScheduleStatus::Cancelled;
        Ok(ScheduleCancelled { employer: self.employer, schedule: self.schedule_key, returned_amount })
    }
}

/// What pausing or resuming a schedule records.
#[derive(Clone, Copy, Debug)]
pub enum PauseScheduleEvent {
    Paused(SchedulePaused),
    Resumed(ScheduleResumed),
}

/// The accounts that pausing or resuming a schedule reads and writes.
#[derive(Clone, Copy, Debug)]
pub struct PauseSchedule {
    /// The signer, who must own the schedule.
    pub employer: Address,
    pub config: VeilConfig,
    pub schedule_key: Address,
    pub schedule: ScheduleAccount,
}

impl PauseSchedule {
    /// The first check pausing (`pause`) or resuming (`!pause`) fails; `None`
    /// when it goes through.
    pub open spec fn pause_error(self, pause: bool) -> Option<VeilProgramError> {
        if self.config.paused {
            Some(VeilProgramError::Paused)
        } else if self.schedule.employer@ != self.employer@ {
            Some(VeilProgramError::Unauthorized)
        } else if pause && self.schedule.status != ScheduleStatus::Active {
            Some(VeilProgramError::ScheduleNotActive)
        } else if !pause && self.schedule.status != ScheduleStatus::Paused {
            Some(VeilProgramError::ScheduleNotPaused)
        } else {
            None
        }
    }

    /// Pauses an active schedule (`pause`) or resumes a paused one (`!pause`);
    /// nothing but the status changes.
    pub fn pause_schedule(&mut self, pause: bool, timestamp: i64) -> (r: Result<
        PauseScheduleEvent,
        VeilProgramError,
    >)
        ensures
            match r {
                Ok(event) => {
                    let o = *old(self);
                    &&& o.pause_error(pause) is None
                    &&& *final(self) == (PauseSchedule {
                        schedule: ScheduleAccount {
                            status: if pause {
                                ScheduleStatus::Paused
                            } else {
                                ScheduleStatus::Active
                            },
                            ..o.schedule
                        },
                        ..o
                    })
                    &&& o.schedule.wf() ==> final(self).schedule.wf()
                    &&& event == if pause {
                        PauseScheduleEvent::Paused(
                            SchedulePaused {
                                employer: o.employer,
                                schedule: o.schedule_key,
                                timestamp,
                            },
                        )
                    } else {
                        PauseScheduleEvent::Resumed(
                            ScheduleResumed {
                                employer: o.employer,
                                schedule: o.schedule_key,
                                timestamp,
                            },
                        )
                    }
                },
                Err(e) => {
                    &&& old(self).pause_error(pause) == Some(e)
                    &&& *final(self) == *old(self)
                },
            },
    {
        if self.config.paused {
            return Err(VeilProgramError::Paused);
        }
        if !same_address(&self.schedule.employer, &self.employer) {
            return Err(VeilProgramError::Unauthorized);
        }
        if pause {
            if self.schedule.status != ScheduleStatus::Active {
                return Err(VeilProgramError::ScheduleNotActive);
            }
            self.schedule.status = ScheduleStatus::Paused;
            Ok(
                PauseScheduleEvent::Paused(
                    SchedulePaused { employer: self.employer, schedule: self.schedule_key, timestamp },
                ),
            )
        } else {
            if self.schedule.status != ScheduleStatus::Paused {
                return Err(VeilProgramError::ScheduleNotPaused);
            }
            self.schedule.status = ScheduleStatus::Active;
            Ok(
                PauseScheduleEvent::Resumed(
                    ScheduleResumed { employer: self.employer, schedule: self.schedule_key, timestamp },
                ),
            )
        }
    }
}

/// The accounts that handing a schedule to the fast venue reads.
#[derive(Clone, Copy, Debug)]
pub struct DelegateSchedule {
    pub payer: Address,
    pub config: VeilConfig,
    pub schedule_key: Address,
    pub schedule: ScheduleAccount,
    /// The account whose authority is handed over.
    pub pda: Address,
}

impl DelegateSchedule {
    /// Decides whether the schedule may be handed to the fast venue: only
    /// while the program runs, only an active schedule, and only the schedule
    /// itself. On success the caller performs the hand-off.
    pub fn delegate_schedule(&self, timestamp: i64) -> (r: Result<ScheduleDelegated, VeilProgramError>)
        ensures
            r == if self.config.paused {
                Err(VeilProgramError::Paused)
            } else if self.schedule.status != ScheduleStatus::Active {
                Err(VeilProgramError::ScheduleNotActive)
            } else if self.pda@ != self.schedule_key@ {
                Err(VeilProgramError::InvalidScheduleId)
            } else {
                Ok(ScheduleDelegated { schedule: self.schedule_key, timestamp })
            },
    {
        if self.config.paused {
            return Err(VeilProgramError::Paused);
        }
        if self.schedule.status != ScheduleStatus::Active {
            return Err(VeilProgramError::ScheduleNotActive);
        }
        if !same_address(&self.pda, &self.schedule_key) {
            return Err(VeilProgramError::InvalidScheduleId);
        }
        Ok(ScheduleDelegated { schedule: self.schedule_key, timestamp })
    }
}

/// The accounts that taking a schedule back from the fast venue reads.
#[derive(Clone, Copy, Debug)]
pub struct UndelegateSchedule {
    pub payer: Address,
    pub config: VeilConfig,
    pub schedule_key: Address,
    pub schedule: ScheduleAccount,
    /// The account whose authority is taken back.
    pub pda: Address,
    /// The hand-off record of the fast venue.
    pub buffer: Address,
}

impl UndelegateSchedule {
    /// Decides whether the schedule may be taken back from the fast venue:
    /// only while the program runs, and only the schedule itself. On success
    /// the caller performs the hand-back.
    pub fn undelegate_schedule(&self, timestamp: i64) -> (r: Result<ScheduleUndelegated, VeilProgramError>)
        ensures
            r == if self.config.paused {
                Err(VeilProgramError::Paused)
            } else if self.pda@ != self.schedule_key@ {
                Err(VeilProgramError::InvalidScheduleId)
            } else {
                Ok(ScheduleUndelegated { schedule: self.schedule_key, timestamp })
            },
    {
        if self.config.paused {
            return Err(VeilProgramError::Paused);
        }
        if !same_address(&self.pda, &self.schedule_key) {
            return Err(VeilProgramError::InvalidScheduleId);
        }
        Ok(ScheduleUndelegated { schedule: self.schedule_key, timestamp })
    }
}

/// Settlement happens claim by claim; this entry point does nothing.
#[derive(Clone, Copy, Debug)]
pub struct ExecuteSettlement {
    pub admin: Address,
}

impl ExecuteSettlement {
    pub fn execute_settlement(&mut self) -> (r: Result<(), VeilProgramError>)
        ensures
            r is Ok,
            *final(self) == *old(self),
    {
        Ok(())
    }
}

} // verus!
