//! Escrow and payroll settlement: custodial vaults split into available and
//! reserved funds, recurring payment schedules committed to by a Merkle root,
//! and a claim protocol that checks membership proofs against a replay bitmap.

pub mod admin;
pub mod bitmap;
pub mod claim;
pub mod er;
pub mod error;
pub mod events;
pub mod merkle;
pub mod schedule;
pub mod state;
pub mod vault;
