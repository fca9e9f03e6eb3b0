//! A minimal, modular state-transition runtime.
//!
//! Independent state modules ("pallets") — system bookkeeping, balances, and
//! a claim registry — are composed under one [`runtime::Runtime`], driven by
//! a block executor that applies ordered extrinsics and isolates
//! per-extrinsic failures.

pub mod balances;
pub mod config;
pub mod proof_of_existence;
pub mod runtime;
pub mod string_map;
pub mod support;
pub mod system;
