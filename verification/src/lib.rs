//! Escrow marketplace factory.
//!
//! The factory provisions independent store sub-accounts and mediates
//! buyer/seller trust through an escrow transaction ledger. Every operation
//! that moves funds or talks to a store is split into a synchronous decision
//! (verified here) and an asynchronous remote action performed by the host;
//! the decision functions return intent values describing the remote calls,
//! and the callback handlers commit or roll back the pending change once the
//! remote outcome is known.

use vstd::prelude::*;

pub mod account;
pub mod factory;
pub mod payout;
pub mod types;

verus! {

/// One NEAR in yoctoNEAR.
pub const ONE_NEAR: u128 = 1_000_000_000_000_000_000_000_000;

/// Stake transferred to a newly provisioned store sub-account, and the
/// minimum deposit required to create one.
pub const STORE_BALANCE: u128 = 7_000_000_000_000_000_000_000_000;

/// Deposit attached to the purchase-intake call sent to a store.
pub const ONE_YOCTO: u128 = 10_000_000_000_000_000_000_000;

/// No deposit attached to a remote call.
pub const NO_DEPOSIT: u128 = 0;

/// One teragas.
pub const TGAS: u64 = 1_000_000_000_000;

/// Gas budget for remote calls issued by the factory.
pub const PGAS: u64 = 40 * TGAS;

/// Converts a teragas count to a gas amount.
pub fn tgas(n: u64) -> (g: u64)
    requires
        n * 1_000_000_000_000 <= u64::MAX,
    ensures
        g == n * 1_000_000_000_000,
{
    n * 1_000_000_000_000
}

} // verus!
