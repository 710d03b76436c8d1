//! The logical layout of the vault's persisted state.
//!
//! `DataKey` names each stored field. Only the enabled flag and the
//! redemption counter ever change over the vault's life; every other field
//! is fixed at initialization.

use vstd::prelude::*;

verus! {

/// Typed keys for the vault's stored fields.
#[derive(Clone, Copy, Debug, PartialEq, Eq, Structural)]
pub enum DataKey {
    /// The admin principal that can enable or disable the vault.
    Admin,
    /// Whether claiming is currently enabled.
    Enabled,
    /// The ROI percentage (5 means a 5% return).
    RoiPercentage,
    /// The participation-token ledger reference.
    TokenAddress,
    /// The stable-asset ledger reference.
    UsdcAddress,
    /// Total tokens redeemed through the vault so far.
    TotalTokensRedeemed,
}

impl DataKey {
    /// Whether the field behind this key may still change after the vault
    /// was initialized. Only the enabled flag and the redemption counter
    /// do; admin, rate and both ledger references are immutable.
    pub fn is_mutable(&self) -> (r: bool)
        ensures
            r <==> (self is Enabled || self is TotalTokensRedeemed),
    {
        match self {
            DataKey::Enabled => true,
            DataKey::TotalTokensRedeemed => true,
            _ => false,
        }
    }
}

} // verus!
