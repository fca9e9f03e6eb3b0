//! The runtime configuration: the concrete types every module is built over.
//!
//! Each module reads the types it needs from here, so an application adapts
//! the machine by editing this one module.

use vstd::prelude::*;

verus! {

/// Identifies an account. Never interpreted structurally by the core; two
/// accounts are the same exactly when their character content is equal.
pub type AccountId = String;

/// The current height of the chain. Owned by the system module.
///
/// The counter wraps to zero past `u32::MAX`; see `crate::system::next_value`.
pub type BlockNumber = u32;

/// A per-account counter of submitted extrinsics. Absence means zero.
///
/// The counter wraps to zero past `u32::MAX`; see `crate::system::next_value`.
pub type Nonce = u32;

/// A per-account amount of funds. Absence means zero.
pub type Balance = u128;

/// An opaque content value that an account may claim.
pub type Content = String;

} // verus!
