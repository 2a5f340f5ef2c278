use crate::error::VeilProgramError;
use crate::events::StateCommitted;
use crate::state::{Address, VeilConfig};
use vstd::prelude::*;

verus! {

/// The accounts that flushing a delegated account home reads.
#[derive(Clone, Copy, Debug)]
pub struct Commit {
    pub payer: Address,
    pub config: VeilConfig,
    /// The vault or schedule whose state is flushed.
    pub delegated_account: Address,
}

impl Commit {
    /// Decides whether the fast venue's state may be flushed home: only while
    /// the program runs. On success the caller performs the flush.
    pub fn commit(&self, timestamp: i64) -> (r: Result<StateCommitted, VeilProgramError>)
        ensures
            r == if self.config.paused {
                Err(VeilProgramError::Paused)
            } else {
                Ok(StateCommitted { account: self.delegated_account, timestamp })
            },
    {
        if self.config.paused {
            return Err(VeilProgramError::Paused);
        }
        Ok(StateCommitted { account: self.delegated_account, timestamp })
    }
}

} // verus!
