//! ClawHire: the job, invoice, payment and report logic of a self-hosted
//! Solana service agent, with its contracts proved by Verus.

pub mod text;
pub mod pool;
pub mod clock;
pub mod solana;
pub mod runtime;
pub mod payments;
pub mod services;
pub mod reports;
pub mod commands;
pub mod laws;
