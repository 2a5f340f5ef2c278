use crate::error::VeilProgramError;
use crate::events::{ConfigInitialized, ErAuthorityUpdated, ProgramPaused, ProgramUnpaused};
use crate::state::{
    is_zero_address, same_address, zero_address, Address, VeilConfig, MAX_BATCH_TIMEOUT_SECS,
    MIN_BATCH_TIMEOUT_SECS,
};
use vstd::prelude::*;

verus! {

/// The accounts that setting up the program reads and writes.
#[derive(Clone, Copy, Debug)]
pub struct InitConfig {
    pub admin: Address,
    /// The configuration record, overwritten on success.
    pub config: VeilConfig,
}

impl InitConfig {
    /// The first check setting up the program fails; `None` when it goes through.
    pub open spec fn init_config_error(
        er_authority: Address,
        allowed_mint: Address,
        max_recipients: u16,
        batch_timeout_secs: u64,
    ) -> Option<VeilProgramError> {
        if max_recipients == 0 {
            Some(VeilProgramError::InvalidMaxRecipients)
        } else if er_authority@ == zero_address() || allowed_mint@ == zero_address() {
            Some(VeilProgramError::InvalidErAuthority)
        } else if batch_timeout_secs < MIN_BATCH_TIMEOUT_SECS || batch_timeout_secs
            > MAX_BATCH_TIMEOUT_SECS {
            Some(VeilProgramError::InvalidBatchTimeout)
        } else {
            None
        }
    }

    /// Writes the program's configuration, unpaused.
    pub fn init_config(
        &mut self,
        governance: Address,
        er_authority: Address,
        allowed_mint: Address,
        max_recipients: u16,
        batch_timeout_secs: u64,
    ) -> (r: Result<ConfigInitialized, VeilProgramError>)
        ensures
            match r {
                Ok(event) => {
                    &&& Self::init_config_error(
                        er_authority,
                        allowed_mint,
                        max_recipients,
                        batch_timeout_secs,
                    ) is None
                    &&& *final(self) == (InitConfig {
                        config: VeilConfig {
                            governance,
                            er_authority,
                            allowed_mint,
                            max_recipients,
                            batch_timeout_secs,
                            paused: false,
                        },
                        ..*old(self)
                    })
                    &&& event == (ConfigInitialized {
                        governance,
                        er_authority,
                        allowed_mint,
                        max_recipients,
                    })
                },
                Err(e) => {
                    &&& Self::init_config_error(
                        er_authority,
                        allowed_mint,
                        max_recipients,
                        batch_timeout_secs,
                    ) == Some(e)
                    &&& *final(self) == *old(self)
                },
            },
    {
        if max_recipients == 0 {
            return Err(VeilProgramError::InvalidMaxRecipients);
        }
        if is_zero_address(&er_authority) || is_zero_address(&allowed_mint) {
            return Err(VeilProgramError::InvalidErAuthority);
        }
        if batch_timeout_secs < MIN_BATCH_TIMEOUT_SECS || batch_timeout_secs > MAX_BATCH_TIMEOUT_SECS {
            return Err(VeilProgramError::InvalidBatchTimeout);
        }
        self.config = VeilConfig {
            governance,
            er_authority,
            allowed_mint,
            max_recipients,
            batch_timeout_secs,
            paused: false,
        };
        Ok(ConfigInitialized { governance, er_authority, allowed_mint, max_recipients })
    }
}

/// The accounts that halting the program reads and writes.
#[derive(Clone, Copy, Debug)]
pub struct Pause {
    pub config: VeilConfig,
    /// The signer, who must be governance.
    pub governance: Address,
}

impl Pause {
    /// Halts every mutating operation; only governance may, and only while the
    /// program runs.
    pub fn pause(&mut self, timestamp: i64) -> (r: Result<ProgramPaused, VeilProgramError>)
        ensures
            r == if old(self).governance@ != old(self).config.governance@ {
                Err(VeilProgramError::Unauthorized)
            } else if old(self).config.paused {
                Err(VeilProgramError::Paused)
            } else {
                Ok(ProgramPaused { governance: old(self).governance, timestamp })
            },
            *final(self) == if r is Ok {
                Pause { config: VeilConfig { paused: true, ..old(self).config }, ..*old(self) }
            } else {
                *old(self)
            },
    {
        if !same_address(&self.governance, &self.config.governance) {
            return Err(VeilProgramError::Unauthorized);
        }
        if self.config.paused {
            return Err(VeilProgramError::Paused);
        }
        self.config.paused = true;
        Ok(ProgramPaused { governance: self.governance, timestamp })
    }
}

/// The accounts that resuming the program reads and writes.
#[derive(Clone, Copy, Debug)]
pub struct Unpause {
    pub config: VeilConfig,
    /// The signer, who must be governance.
    pub governance: Address,
}

impl Unpause {
    /// Lifts the halt; only governance may, and only while the program is halted.
    pub fn unpause(&mut self, timestamp: i64) -> (r: Result<ProgramUnpaused, VeilProgramError>)
        ensures
            r == if old(self).governance@ != old(self).config.governance@ {
                Err(VeilProgramError::Unauthorized)
            } else if !old(self).config.paused {
                Err(VeilProgramError::NotPaused)
            } else {
                Ok(ProgramUnpaused { governance: old(self).governance, timestamp })
            },
            *final(self) == if r is Ok {
                Unpause { config: VeilConfig { paused: false, ..old(self).config }, ..*old(self) }
            } else {
                *old(self)
            },
    {
        if !same_address(&self.governance, &self.config.governance) {
            return Err(VeilProgramError::Unauthorized);
        }
        if !self.config.paused {
            return Err(VeilProgramError::NotPaused);
        }
        self.config.paused = false;
        Ok(ProgramUnpaused { governance: self.governance, timestamp })
    }
}

/// The accounts that replacing the claim executor reads and writes.
#[derive(Clone, Copy, Debug)]
pub struct SetErAuthority {
    pub config: VeilConfig,
    /// The signer, who must be governance.
    pub governance: Address,
}

impl SetErAuthority {
    /// The first check replacing the claim executor fails; `None` when it
    /// goes through.
    pub open spec fn set_er_auth_error(self, new_er_authority: Address) -> Option<VeilProgramError> {
        if self.governance@ != self.config.governance@ {
            Some(VeilProgramError::Unauthorized)
        } else if self.config.paused {
            Some(VeilProgramError::Paused)
        } else if new_er_authority@ == zero_address() {
            Some(VeilProgramError::InvalidErAuthority)
        } else {
            None
        }
    }

    /// Makes `new_er_authority` the only signer that may execute claims.
    pub fn set_er_auth(&mut self, new_er_authority: Address, timestamp: i64) -> (r: Result<
        ErAuthorityUpdated,
        VeilProgramError,
    >)
        ensures
            match r {
                Ok(event) => {
                    &&& old(self).set_er_auth_error(new_er_authority) is None
                    &&& *final(self) == (SetErAuthority {
                        config: VeilConfig { er_authority: new_er_authority, ..old(self).config },
                        ..*old(self)
                    })
                    &&& event == (ErAuthorityUpdated {
                        governance: old(self).governance,
                        old_er_authority: old(self).config.er_authority,
                        new_er_authority,
                        timestamp,
                    })
                },
                Err(e) => {
                    &&& old(self).set_er_auth_error(new_er_authority) == Some(e)
                    &&& *final(self) == *old(self)
                },
            },
    {
        if !same_address(&self.governance, &self.config.governance) {
            return Err(VeilProgramError::Unauthorized);
        }
        if self.config.paused {
            return Err(VeilProgramError::Paused);
        }
        if is_zero_address(&new_er_authority) {
            return Err(VeilProgramError::InvalidErAuthority);
        }
        let old_er_authority = self.config.er_authority;
        self.config.er_authority = new_er_authority;
        Ok(
            ErAuthorityUpdated {
                governance: self.governance,
                old_er_authority,
                new_er_authority,
                timestamp,
            },
        )
    }
}

} // verus!
