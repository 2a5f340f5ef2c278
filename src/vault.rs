use crate::error::VeilProgramError;
use crate::events::{VaultDelegated, VaultDeposited, VaultInitialized, VaultUndelegated, VaultWithdrawn};
use crate::state::{same_address, Address, TokenAccount, VaultAccount, VeilConfig};
use vstd::prelude::*;

verus! {

/// The accounts a deposit reads and writes.
#[derive(Clone, Copy, Debug)]
pub struct Deposit {
    /// The signer, who must own the vault.
    pub employer: Address,
    pub config: VeilConfig,
    pub vault_key: Address,
    pub vault: VaultAccount,
    /// The vault's custodial token account, as it stands before the transfer.
    pub vault_ata: TokenAccount,
    /// The employer's token account, the source of the funds.
    pub employer_ata: TokenAccount,
    pub token_mint: Address,
}

impl Deposit {
    /// The first check a deposit of `amount` fails; `None` when it goes through.
    pub open spec fn deposit_error(self, amount: u64) -> Option<VeilProgramError> {
        let v = self.vault;
        if self.config.paused {
            Some(VeilProgramError::Paused)
        } else if v.employer@ != self.employer@ {
            Some(VeilProgramError::Unauthorized)
        } else if v.token_mint@ != self.token_mint@ {
            Some(VeilProgramError::InvalidMint)
        } else if self.vault_ata.address@ != v.vault_ata@ {
            Some(VeilProgramError::InvalidTokenAccount)
        } else if self.token_mint@ != self.config.allowed_mint@ {
            Some(VeilProgramError::InvalidMint)
        } else if self.employer_ata.owner@ != self.employer@ {
            Some(VeilProgramError::Unauthorized)
        } else if self.employer_ata.mint@ != self.token_mint@ {
            Some(VeilProgramError::InvalidMint)
        } else if amount == 0 {
            Some(VeilProgramError::InsufficientFunds)
        } else if v.available + amount > u64::MAX || self.vault_ata.amount + amount > u64::MAX
            || v.available + amount + v.reserved > u64::MAX {
            Some(VeilProgramError::InsufficientFunds)
        } else if !v.conserves(self.vault_ata.amount) {
            Some(VeilProgramError::VaultMismatch)
        } else {
            None
        }
    }

    /// Moves `amount` from the employer's token account into custody and adds
    /// it to the vault's available funds. Succeeds only while the vault's
    /// books agree with its custodial balance. On success the caller makes the
    /// transfer.
    pub fn deposit_to_vault(&mut self, amount: u64) -> (r: Result<VaultDeposited, VeilProgramError>)
        ensures
            match r {
                Ok(event) => {
                    &&& old(self).deposit_error(amount) is None
                    &&& *final(self) == (Deposit {
                        vault: VaultAccount {
                            available: (old(self).vault.available + amount) as u64,
                            ..old(self).vault
                        },
                        ..*old(self)
                    })
                    &&& final(self).vault.conserves((old(self).vault_ata.amount + amount) as u64)
                    &&& event == (VaultDeposited {
                        vault: old(self).vault_key,
                        employer: old(self).employer,
                        amount,
                        available: final(self).vault.available,
                    })
                },
                Err(e) => {
                    &&& old(self).deposit_error(amount) == Some(e)
                    &&& *final(self) == *old(self)
                },
            },
    {
        if self.config.paused {
            return Err(VeilProgramError::Paused);
        }
        if !same_address(&self.vault.employer, &self.employer) {
            return Err(VeilProgramError::Unauthorized);
        }
        if !same_address(&self.vault.token_mint, &self.token_mint) {
            return Err(VeilProgramError::InvalidMint);
        }
        if !same_address(&self.vault_ata.address, &self.vault.vault_ata) {
            return Err(VeilProgramError::InvalidTokenAccount);
        }
        if !same_address(&self.token_mint, &self.config.allowed_mint) {
            return Err(VeilProgramError::InvalidMint);
        }
        if !same_address(&self.employer_ata.owner, &self.employer) {
            return Err(VeilProgramError::Unauthorized);
        }
        if !same_address(&self.employer_ata.mint, &self.token_mint) {
            return Err(VeilProgramError::InvalidMint);
        }
        if amount == 0 {
            return Err(VeilProgramError::InsufficientFunds);
        }
        let available = match self.vault.available.checked_add(amount) {
            Some(v) => v,
            None => return Err(VeilProgramError::InsufficientFunds),
        };
        let balance = match self.vault_ata.amount.checked_add(amount) {
            Some(v) => v,
            None => return Err(VeilProgramError::InsufficientFunds),
        };
        let total = match available.checked_add(self.vault.reserved) {
            Some(v) => v,
            None => return Err(VeilProgramError::InsufficientFunds),
        };
        if total != balance {
            return Err(VeilProgramError::VaultMismatch);
        }
        self.vault.available = available;
        Ok(
            VaultDeposited {
                vault: self.vault_key,
                employer: self.employer,
                amount,
                available,
            },
        )
    }
}

/// The accounts a withdrawal reads and writes.
#[derive(Clone, Copy, Debug)]
pub struct Withdraw {
    /// The signer, who must own the vault.
    pub employer: Address,
    pub config: VeilConfig,
    pub vault_key: Address,
    pub vault: VaultAccount,
    /// The vault's custodial token account, as it stands before the transfer.
    pub vault_ata: TokenAccount,
    /// The employer's token account, the destination of the funds.
    pub employer_ata: TokenAccount,
    pub token_mint: Address,
}

impl Withdraw {
    /// The first check a withdrawal of `amount` fails; `None` when it goes through.
    pub open spec fn withdraw_error(self, amount: u64) -> Option<VeilProgramError> {
        let v = self.vault;
        if self.config.paused {
            Some(VeilProgramError::Paused)
        } else if v.employer@ != self.employer@ {
            Some(VeilProgramError::Unauthorized)
        } else if v.token_mint@ != self.token_mint@ {
            Some(VeilProgramError::InvalidMint)
        } else if self.vault_ata.address@ != v.vault_ata@ {
            Some(VeilProgramError::InvalidTokenAccount)
        } else if self.token_mint@ != self.config.allowed_mint@ {
            Some(VeilProgramError::InvalidMint)
        } else if self.employer_ata.owner@ != self.employer@ {
            Some(VeilProgramError::Unauthorized)
        } else if self.employer_ata.mint@ != self.token_mint@ {
            Some(VeilProgramError::InvalidMint)
        } else if amount == 0 || amount > v.available {
            Some(VeilProgramError::InsufficientFunds)
        } else if self.vault_ata.amount < amount || v.available - amount + v.reserved > u64::MAX {
            Some(VeilProgramError::InsufficientFunds)
        } else if !v.conserves(self.vault_ata.amount) {
            Some(VeilProgramError::VaultMismatch)
        } else {
            None
        }
    }

    /// Moves `amount` of the vault's available funds out of custody to the
    /// employer. Succeeds only while the vault's books agree with its
    /// custodial balance. On success the caller makes the transfer.
    pub fn withdraw_from_vault(&mut self, amount: u64) -> (r: Result<VaultWithdrawn, VeilProgramError>)
        ensures
            match r {
                Ok(event) => {
                    &&& old(self).withdraw_error(amount) is None
                    &&& *final(self) == (Withdraw {
                        vault: VaultAccount {
                            available: (old(self).vault.available - amount) as u64,
                            ..old(self).vault
                        },
                        ..*old(self)
                    })
                    &&& final(self).vault.conserves((old(self).vault_ata.amount - amount) as u64)
                    &&& event == (VaultWithdrawn {
                        vault: old(self).vault_key,
                        employer: old(self).employer,
                        amount,
                        available: final(self).vault.available,
                    })
                },
                Err(e) => {
                    &&& old(self).withdraw_error(amount) == Some(e)
                    &&& *final(self) == *old(self)
                },
            },
    {
        if self.config.paused {
            return Err(VeilProgramError::Paused);
        }
        if !same_address(&self.vault.employer, &self.employer) {
            return Err(VeilProgramError::Unauthorized);
        }
        if !same_address(&self.vault.token_mint, &self.token_mint) {
            return Err(VeilProgramError::InvalidMint);
        }
        if !same_address(&self.vault_ata.address, &self.vault.vault_ata) {
            return Err(VeilProgramError::InvalidTokenAccount);
        }
        if !same_address(&self.token_mint, &self.config.allowed_mint) {
            return Err(VeilProgramError::InvalidMint);
        }
        if !same_address(&self.employer_ata.owner, &self.employer) {
            return Err(VeilProgramError::Unauthorized);
        }
        if !same_address(&self.employer_ata.mint, &self.token_mint) {
            return Err(VeilProgramError::InvalidMint);
        }
        if amount == 0 || amount > self.vault.available {
            return Err(VeilProgramError::InsufficientFunds);
        }
        let available = self.vault.available - amount;
        let balance = match self.vault_ata.amount.checked_sub(amount) {
            Some(v) => v,
            None => return Err(VeilProgramError::InsufficientFunds),
        };
        let total = match available.checked_add(self.vault.reserved) {
            Some(v) => v,
            None => return Err(VeilProgramError::InsufficientFunds),
        };
        if total != balance {
            return Err(VeilProgramError::VaultMismatch);
        }
        self.vault.available = available;
        Ok(
            VaultWithdrawn {
                vault: self.vault_key,
                employer: self.employer,
                amount,
                available,
            },
        )
    }
}

/// The accounts that opening a vault reads and writes.
#[derive(Clone, Copy, Debug)]
pub struct InitVault {
    /// The signer, who becomes the vault's owner.
    pub employer: Address,
    pub config: VeilConfig,
    pub token_mint: Address,
    pub vault_key: Address,
    /// The employer's vault, if one was opened before.
    pub vault: Option<VaultAccount>,
    /// The custodial token account created alongside the vault.
    pub vault_ata: Address,
}

impl InitVault {
    /// The first check opening a vault fails; `None` when it goes through.
    pub open spec fn init_vault_error(self) -> Option<VeilProgramError> {
        if self.config.paused {
            Some(VeilProgramError::Paused)
        } else if self.vault is Some {
            Some(VeilProgramError::VaultAlreadyInitialized)
        } else if self.token_mint@ != self.config.allowed_mint@ {
            Some(VeilProgramError::InvalidMint)
        } else {
            None
        }
    }

    /// Opens the employer's vault, empty, for the allowed asset.
    pub fn init_vault(&mut self, bump: u8) -> (r: Result<VaultInitialized, VeilProgramError>)
        ensures
            match r {
                Ok(event) => {
                    &&& old(self).init_vault_error() is None
                    &&& *final(self) == (InitVault {
                        vault: Some(
                            VaultAccount {
                                employer: old(self).employer,
                                vault_ata: old(self).vault_ata,
                                token_mint: old(self).token_mint,
                                available: 0,
                                reserved: 0,
                                bump,
                            },
                        ),
                        ..*old(self)
                    })
                    &&& event == (VaultInitialized {
                        employer: old(self).employer,
                        vault: old(self).vault_key,
                        vault_ata: old(self).vault_ata,
                        token_mint: old(self).token_mint,
                    })
                },
                Err(e) => {
                    &&& old(self).init_vault_error() == Some(e)
                    &&& *final(self) == *old(self)
                },
            },
    {
        if self.config.paused {
            return Err(VeilProgramError::Paused);
        }
        if self.vault.is_some() {
            return Err(VeilProgramError::VaultAlreadyInitialized);
        }
        if !same_address(&self.token_mint, &self.config.allowed_mint) {
            return Err(VeilProgramError::InvalidMint);
        }
        self.vault = Some(
            VaultAccount {
                employer: self.employer,
                vault_ata: self.vault_ata,
                token_mint: self.token_mint,
                available: 0,
                reserved: 0,
                bump,
            },
        );
        Ok(
            VaultInitialized {
                employer: self.employer,
                vault: self.vault_key,
                vault_ata: self.vault_ata,
                token_mint: self.token_mint,
            },
        )
    }
}

/// The accounts that handing a vault to the fast venue reads.
#[derive(Clone, Copy, Debug)]
pub struct DelegateVault {
    pub payer: Address,
    pub config: VeilConfig,
    pub vault_key: Address,
    pub vault: VaultAccount,
    /// The account whose authority is handed over.
    pub pda: Address,
}

impl DelegateVault {
    /// Decides whether the vault may be handed to the fast venue: only while
    /// the program runs, and only the vault itself. On success the caller
    /// performs the hand-off.
    pub fn delegate_vault(&self, timestamp: i64) -> (r: Result<VaultDelegated, VeilProgramError>)
        ensures
            r == if self.config.paused {
                Err(VeilProgramError::Paused)
            } else if self.pda@ != self.vault_key@ {
                Err(VeilProgramError::VaultMismatch)
            } else {
                Ok(VaultDelegated { vault: self.vault_key, er_authority: self.config.er_authority, timestamp })
            },
    {
        if self.config.paused {
            return Err(VeilProgramError::Paused);
        }
        if !same_address(&self.pda, &self.vault_key) {
            return Err(VeilProgramError::VaultMismatch);
        }
        Ok(VaultDelegated { vault: self.vault_key, er_authority: self.config.er_authority, timestamp })
    }
}

/// The accounts that taking a vault back from the fast venue reads.
#[derive(Clone, Copy, Debug)]
pub struct UndelegateVault {
    pub payer: Address,
    pub config: VeilConfig,
    pub vault_key: Address,
    pub vault: VaultAccount,
    /// The account whose authority is taken back.
    pub pda: Address,
    /// The hand-off record of the fast venue.
    pub buffer: Address,
}

impl UndelegateVault {
    /// Decides whether the vault may be taken back from the fast venue: only
    /// while the program runs, and only the vault itself. On success the
    /// caller performs the hand-back.
    pub fn undelegate_vault(&self, timestamp: i64) -> (r: Result<VaultUndelegated, VeilProgramError>)
        ensures
            r == if self.config.paused {
                Err(VeilProgramError::Paused)
            } else if self.pda@ != self.vault_key@ {
                Err(VeilProgramError::VaultMismatch)
            } else {
                Ok(VaultUndelegated { vault: self.vault_key, er_authority: self.config.er_authority, timestamp })
            },
    {
        if self.config.paused {
            return Err(VeilProgramError::Paused);
        }
        if !same_address(&self.pda, &self.vault_key) {
            return Err(VeilProgramError::VaultMismatch);
        }
        Ok(VaultUndelegated { vault: self.vault_key, er_authority: self.config.er_authority, timestamp })
    }
}

} // verus!
