//! The notifications the vault produces as observable side effects.
//!
//! The notification sink is an external collaborator: the vault hands each
//! event back to its caller as a plain value, and the surrounding runtime
//! publishes it fire-and-forget.

use vstd::prelude::*;

verus! {

/// Emitted when a beneficiary successfully claims their return: who
/// claimed, how many participation tokens were redeemed, how much stable
/// asset they received, and the rate applied.
#[derive(Clone, Copy, Debug, PartialEq, Eq, Structural)]
pub struct ClaimEvent {
    /// The principal that claimed.
    pub beneficiary: u64,
    /// Amount of participation tokens redeemed.
    pub tokens_redeemed: i128,
    /// Amount of stable asset received, return included.
    pub usdc_received: i128,
    /// The ROI percentage at the time of the claim.
    pub roi_percentage: i128,
}

/// Emitted when the admin flips the vault's availability.
#[derive(Clone, Copy, Debug, PartialEq, Eq, Structural)]
pub struct AvailabilityChangedEvent {
    /// The admin who made the change.
    pub admin: u64,
    /// The new enabled status.
    pub enabled: bool,
}

} // verus!
