//! The exchange vault: it redeems a beneficiary's whole participation-token
//! balance for the stable asset plus a fixed return.
//!
//! The vault bridges two ledgers it does not own: the participation-token
//! ledger and the stable-asset ledger. A claim reads the balances, computes
//! the payout at the fixed ROI percentage, and then — as a single atomic
//! unit — moves the tokens to the vault and the payout to the beneficiary.
//! If any precondition fails, nothing moves at all.
//!
//! The payout uses integer floor division,
//! `usdc_amount = token_balance * (100 + roi_percentage) / 100`, so the
//! protocol is deliberately biased in the vault's favor on fractional
//! remainders; this rounding direction is part of the contract.

use crate::contract;
use crate::contract::Token;
use crate::error::ContractError;
use crate::events::{AvailabilityChangedEvent, ClaimEvent};
use vstd::arithmetic::div_mod::{
    lemma_div_is_ordered, lemma_div_multiples_vanish, lemma_div_nonincreasing,
    lemma_div_pos_is_pos,
};
use vstd::arithmetic::mul::{
    lemma_mul_inequality, lemma_mul_is_commutative, lemma_mul_nonnegative,
};
use vstd::prelude::*;

verus! {

/// The stable-asset payout for redeeming `token_balance` participation
/// tokens at `roi_percentage`: the balance marked up by the percentage,
/// rounded down.
pub open spec fn payout(token_balance: int, roi_percentage: int) -> int {
    token_balance * (100 + roi_percentage) / 100
}

/// The exchange vault's state.
pub struct VaultContract {
    address: u64,
    admin: Option<u64>,
    enabled: bool,
    roi_percentage: i128,
    token_address: u64,
    usdc_address: u64,
    total_tokens_redeemed: i128,
}

/// What `preview_claim` reports: the would-be redemption, without touching
/// any state.
#[derive(Clone, Copy, Debug, PartialEq, Eq, Structural)]
pub struct ClaimPreview {
    /// The beneficiary's current participation-token balance.
    pub token_balance: i128,
    /// The stable asset a claim would pay out, return included.
    pub usdc_amount: i128,
    /// The return portion of the payout.
    pub roi_amount: i128,
    /// Whether the vault's stable-asset balance covers the payout now.
    pub vault_has_sufficient_balance: bool,
    /// Mirrors the vault's enabled flag.
    pub claim_enabled: bool,
}

/// A full snapshot of the vault: every stored field plus the vault's live
/// stable-asset balance.
#[derive(Clone, Copy, Debug, PartialEq, Eq, Structural)]
pub struct VaultOverview {
    pub admin: u64,
    pub enabled: bool,
    pub roi_percentage: i128,
    pub token_address: u64,
    pub usdc_address: u64,
    pub usdc_balance: i128,
    pub total_tokens_redeemed: i128,
}

impl VaultContract {
    /// The vault's own principal: where redeemed tokens go, and whose
    /// stable-asset balance pays claims.
    pub closed spec fn spec_address(self) -> u64 {
        self.address
    }

    /// Whether an admin has been recorded.
    pub closed spec fn admin_is_set(self) -> bool {
        self.admin is Some
    }

    /// The admin, once recorded.
    pub closed spec fn spec_admin(self) -> u64 {
        match self.admin {
            Some(a) => a,
            None => 0,
        }
    }

    /// Whether claiming is currently enabled.
    pub closed spec fn spec_enabled(self) -> bool {
        self.enabled
    }

    /// The fixed ROI percentage.
    pub closed spec fn spec_roi_percentage(self) -> i128 {
        self.roi_percentage
    }

    /// The participation-token ledger reference.
    pub closed spec fn spec_token_address(self) -> u64 {
        self.token_address
    }

    /// The stable-asset ledger reference.
    pub closed spec fn spec_usdc_address(self) -> u64 {
        self.usdc_address
    }

    /// Total tokens redeemed through the vault so far.
    pub closed spec fn spec_total_tokens_redeemed(self) -> int {
        self.total_tokens_redeemed as int
    }

    /// The vault's well-formedness invariant: the rate is a non-negative
    /// percentage small enough to mark up with, and the redemption counter
    /// is non-negative.
    pub closed spec fn wf(self) -> bool {
        &&& 0 <= self.roi_percentage <= i128::MAX - 100
        &&& self.total_tokens_redeemed >= 0
    }

    /// A vault that has not been initialized yet: no admin, disabled, all
    /// numeric fields zero.
    pub fn new(address: u64) -> (r: VaultContract)
        ensures
            r.wf(),
            r.spec_address() == address,
            !r.admin_is_set(),
            !r.spec_enabled(),
            r.spec_roi_percentage() == 0,
            r.spec_token_address() == 0,
            r.spec_usdc_address() == 0,
            r.spec_total_tokens_redeemed() == 0,
    {
        VaultContract {
            address,
            admin: None,
            enabled: false,
            roi_percentage: 0,
            token_address: 0,
            usdc_address: 0,
            total_tokens_redeemed: 0,
        }
    }

    /// Record every field once: admin, availability, rate and the two
    /// ledger references; the redemption counter starts at zero. A second
    /// call fails with `AlreadyInitialized`, a negative rate with
    /// `InvalidAmount`; either way nothing changes.
    pub fn initialize(
        &mut self,
        admin: u64,
        enabled: bool,
        roi_percentage: i128,
        token_address: u64,
        usdc_address: u64,
    ) -> (r: Result<(), ContractError>)
        requires
            old(self).wf(),
            roi_percentage <= i128::MAX - 100,
        ensures
            r == initialize_result(*old(self), roi_percentage),
            r is Ok ==> final(self).wf(),
            r is Ok ==> final(self).spec_address() == old(self).spec_address(),
            r is Ok ==> final(self).admin_is_set() && final(self).spec_admin() == admin,
            r is Ok ==> final(self).spec_enabled() == enabled,
            r is Ok ==> final(self).spec_roi_percentage() == roi_percentage,
            r is Ok ==> final(self).spec_token_address() == token_address,
            r is Ok ==> final(self).spec_usdc_address() == usdc_address,
            r is Ok ==> final(self).spec_total_tokens_redeemed() == 0,
            r is Err ==> *final(self) == *old(self),
    {
        if self.admin.is_some() {
            return Err(ContractError::AlreadyInitialized);
        }
        if roi_percentage < 0 {
            return Err(ContractError::InvalidAmount);
        }
        self.admin = Some(admin);
        self.enabled = enabled;
        self.roi_percentage = roi_percentage;
        self.token_address = token_address;
        self.usdc_address = usdc_address;
        self.total_tokens_redeemed = 0;
        Ok(())
    }

    /// Create the vault at `address` with all fields recorded.
    pub fn __constructor(
        address: u64,
        admin: u64,
        enabled: bool,
        roi_percentage: i128,
        token_address: u64,
        usdc_address: u64,
    ) -> (r: Result<VaultContract, ContractError>)
        requires
            roi_percentage <= i128::MAX - 100,
        ensures
            r is Ok <==> roi_percentage >= 0,
            match r {
                Ok(v) => {
                    &&& v.wf()
                    &&& v.spec_address() == address
                    &&& v.admin_is_set() && v.spec_admin() == admin
                    &&& v.spec_enabled() == enabled
                    &&& v.spec_roi_percentage() == roi_percentage
                    &&& v.spec_token_address() == token_address
                    &&& v.spec_usdc_address() == usdc_address
                    &&& v.spec_total_tokens_redeemed() == 0
                },
                Err(e) => e == ContractError::InvalidAmount,
            },
    {
        let mut vault = VaultContract::new(address);
        match vault.initialize(admin, enabled, roi_percentage, token_address, usdc_address) {
            Ok(()) => Ok(vault),
            Err(e) => Err(e),
        }
    }

    /// Flip whether claiming is enabled. The caller must be — and must
    /// equal — the stored admin; a vault with no admin recorded reports
    /// `AdminNotFound`, which is distinct from the authorization failure.
    /// On success the availability-changed notification is returned for
    /// the runtime to publish.
    pub fn availability_for_exchange(&mut self, caller: u64, admin: u64, enabled: bool) -> (r:
        Result<AvailabilityChangedEvent, ContractError>)
        requires
            old(self).wf(),
        ensures
            r == availability_result(*old(self), caller, admin, enabled),
            r is Ok ==> final(self).wf(),
            r is Ok ==> final(self).spec_enabled() == enabled,
            r is Ok ==> final(self).spec_address() == old(self).spec_address(),
            r is Ok ==> final(self).admin_is_set() == old(self).admin_is_set(),
            r is Ok ==> final(self).spec_admin() == old(self).spec_admin(),
            r is Ok ==> final(self).spec_roi_percentage() == old(self).spec_roi_percentage(),
            r is Ok ==> final(self).spec_token_address() == old(self).spec_token_address(),
            r is Ok ==> final(self).spec_usdc_address() == old(self).spec_usdc_address(),
            r is Ok ==> final(self).spec_total_tokens_redeemed() == old(
                self,
            ).spec_total_tokens_redeemed(),
            r is Err ==> *final(self) == *old(self),
    {
        if caller != admin {
            return Err(ContractError::Unauthorized);
        }
        let stored_admin = match self.admin {
            Some(a) => a,
            None => {
                return Err(ContractError::AdminNotFound);
            },
        };
        if admin != stored_admin {
            return Err(ContractError::Unauthorized);
        }
        self.enabled = enabled;
        Ok(AvailabilityChangedEvent { admin, enabled })
    }
}

impl VaultContract {
    /// Redeem the beneficiary's whole participation-token balance.
    /// Requires the beneficiary's authorization. The claim succeeds exactly
    /// when the vault is enabled, the balance is nonzero, and the vault's
    /// stable-asset balance covers the payout; then, as one atomic unit,
    /// the tokens move to the vault, the payout moves to the beneficiary,
    /// and the redemption counter grows by the claimed amount. On any
    /// failure nothing — on either ledger or in the vault — changes.
    /// On success the claim notification is returned for the runtime to
    /// publish.
    pub fn claim(&mut self, caller: u64, beneficiary: u64, token: &mut Token, usdc: &mut Token)
        -> (r: Result<ClaimEvent, ContractError>)
        requires
            old(self).wf(),
            old(token).wf(),
            old(usdc).wf(),
            old(token).bal(beneficiary) * (100 + old(self).spec_roi_percentage()) <= i128::MAX,
            old(token).bal(old(self).spec_address()) + old(token).bal(beneficiary) <= i128::MAX,
            old(usdc).bal(beneficiary) + payout(
                old(token).bal(beneficiary),
                old(self).spec_roi_percentage() as int,
            ) <= i128::MAX,
            old(self).spec_total_tokens_redeemed() + old(token).bal(beneficiary) <= i128::MAX,
        ensures
            r == claim_result(*old(self), *old(token), *old(usdc), caller, beneficiary),
            r is Ok ==> claim_post(
                *old(self),
                *final(self),
                *old(token),
                *final(token),
                *old(usdc),
                *final(usdc),
                beneficiary,
            ),
            r is Err ==> *final(self) == *old(self) && *final(token) == *old(token) && *final(usdc)
                == *old(usdc),
    {
        if caller != beneficiary {
            return Err(ContractError::Unauthorized);
        }
        if !self.enabled {
            return Err(ContractError::ExchangeDisabled);
        }
        let token_balance = token.balance(beneficiary);
        if token_balance == 0 {
            return Err(ContractError::NothingToClaim);
        }
        let rate = 100 + self.roi_percentage;
        proof {
            lemma_mul_nonnegative(token_balance as int, rate as int);
        }
        let product = token_balance * rate;
        proof {
            lemma_div_pos_is_pos(product as int, 100);
            lemma_div_nonincreasing(product as int, 100);
        }
        let usdc_amount = product / 100;
        let vault_usdc_balance = usdc.balance(self.address);
        if vault_usdc_balance < usdc_amount {
            return Err(ContractError::InsufficientVaultFunds);
        }
        match token.transfer(beneficiary, beneficiary, self.address, token_balance) {
            Ok(()) => (),
            Err(e) => {
                // Unreachable: the balance just read covers exactly itself.
                proof {
                    assert(false);
                }
                return Err(e);
            },
        }
        match usdc.transfer(self.address, self.address, beneficiary, usdc_amount) {
            Ok(()) => (),
            Err(e) => {
                // Unreachable: the vault's balance was checked to cover it.
                proof {
                    assert(false);
                }
                return Err(e);
            },
        }
        self.total_tokens_redeemed = self.total_tokens_redeemed + token_balance;
        Ok(
            ClaimEvent {
                beneficiary,
                tokens_redeemed: token_balance,
                usdc_received: usdc_amount,
                roi_percentage: self.roi_percentage,
            },
        )
    }

    /// Simulate a claim without touching any state: report the
    /// beneficiary's balance, the payout and its return portion, whether
    /// the vault could afford it now, and whether claiming is enabled.
    /// Usable even when the vault is disabled or the balance is zero; the
    /// degenerate result carries all amounts zero.
    pub fn preview_claim(&self, beneficiary: u64, token: &Token, usdc: &Token) -> (r: ClaimPreview)
        requires
            self.wf(),
            token.wf(),
            usdc.wf(),
            token.bal(beneficiary) * (100 + self.spec_roi_percentage()) <= i128::MAX,
        ensures
            r.token_balance as int == token.bal(beneficiary),
            r.usdc_amount as int == payout(
                token.bal(beneficiary),
                self.spec_roi_percentage() as int,
            ),
            r.roi_amount as int == payout(
                token.bal(beneficiary),
                self.spec_roi_percentage() as int,
            ) - token.bal(beneficiary),
            r.roi_amount >= 0,
            r.vault_has_sufficient_balance <==> usdc.bal(self.spec_address()) >= payout(
                token.bal(beneficiary),
                self.spec_roi_percentage() as int,
            ),
            r.claim_enabled == self.spec_enabled(),
    {
        let token_balance = token.balance(beneficiary);
        let rate = 100 + self.roi_percentage;
        proof {
            lemma_mul_nonnegative(token_balance as int, rate as int);
        }
        let product = token_balance * rate;
        proof {
            lemma_div_pos_is_pos(product as int, 100);
            lemma_div_nonincreasing(product as int, 100);
            lemma_mul_inequality(100, rate as int, token_balance as int);
            lemma_mul_is_commutative(rate as int, token_balance as int);
            assert(100 * (token_balance as int) <= product as int);
            lemma_div_is_ordered(100 * (token_balance as int), product as int, 100);
            lemma_div_multiples_vanish(token_balance as int, 100);
            assert((100 * (token_balance as int)) / 100 == token_balance as int);
        }
        let usdc_amount = product / 100;
        let roi_amount = usdc_amount - token_balance;
        let vault_usdc_balance = usdc.balance(self.address);
        ClaimPreview {
            token_balance,
            usdc_amount,
            roi_amount,
            vault_has_sufficient_balance: vault_usdc_balance >= usdc_amount,
            claim_enabled: self.enabled,
        }
    }

    /// The vault's own principal.
    pub fn address(&self) -> (r: u64)
        ensures
            r == self.spec_address(),
    {
        self.address
    }

    /// The stored admin, or `AdminNotFound` when none was recorded.
    pub fn admin(&self) -> (r: Result<u64, ContractError>)
        ensures
            r is Ok <==> self.admin_is_set(),
            match r {
                Ok(a) => a == self.spec_admin(),
                Err(e) => e == ContractError::AdminNotFound,
            },
    {
        match self.admin {
            Some(a) => Ok(a),
            None => Err(ContractError::AdminNotFound),
        }
    }

    /// Whether claiming is currently enabled.
    pub fn enabled(&self) -> (r: bool)
        ensures
            r == self.spec_enabled(),
    {
        self.enabled
    }

    /// The fixed ROI percentage.
    pub fn roi_percentage(&self) -> (r: i128)
        ensures
            r == self.spec_roi_percentage(),
    {
        self.roi_percentage
    }

    /// The participation-token ledger reference.
    pub fn token_address(&self) -> (r: u64)
        ensures
            r == self.spec_token_address(),
    {
        self.token_address
    }

    /// The stable-asset ledger reference.
    pub fn usdc_address(&self) -> (r: u64)
        ensures
            r == self.spec_usdc_address(),
    {
        self.usdc_address
    }

    /// Total tokens redeemed through the vault so far.
    pub fn total_tokens_redeemed(&self) -> (r: i128)
        ensures
            r as int == self.spec_total_tokens_redeemed(),
    {
        self.total_tokens_redeemed
    }

    /// A full snapshot: every stored field plus the vault's live
    /// stable-asset balance.
    pub fn get_vault_overview(&self, usdc: &Token) -> (r: VaultOverview)
        requires
            self.admin_is_set(),
            usdc.wf(),
        ensures
            r.admin == self.spec_admin(),
            r.enabled == self.spec_enabled(),
            r.roi_percentage == self.spec_roi_percentage(),
            r.token_address == self.spec_token_address(),
            r.usdc_address == self.spec_usdc_address(),
            r.usdc_balance as int == usdc.bal(self.spec_address()),
            r.total_tokens_redeemed as int == self.spec_total_tokens_redeemed(),
    {
        let admin = match self.admin {
            Some(a) => a,
            None => 0,
        };
        VaultOverview {
            admin,
            enabled: self.enabled,
            roi_percentage: self.roi_percentage,
            token_address: self.token_address,
            usdc_address: self.usdc_address,
            usdc_balance: usdc.balance(self.address),
            total_tokens_redeemed: self.total_tokens_redeemed,
        }
    }
}

/// The outcome `claim` promises: success exactly when the vault is
/// enabled, the beneficiary holds tokens, and the vault's stable-asset
/// balance covers the payout — and then the claim notification itself.
pub open spec fn claim_result(
    v: VaultContract,
    token: Token,
    usdc: Token,
    caller: u64,
    beneficiary: u64,
) -> Result<ClaimEvent, ContractError> {
    let tb = token.bal(beneficiary);
    let pay = payout(tb, v.spec_roi_percentage() as int);
    if caller != beneficiary {
        Err(ContractError::Unauthorized)
    } else if !v.spec_enabled() {
        Err(ContractError::ExchangeDisabled)
    } else if tb == 0 {
        Err(ContractError::NothingToClaim)
    } else if usdc.bal(v.spec_address()) < pay {
        Err(ContractError::InsufficientVaultFunds)
    } else {
        Ok(
            ClaimEvent {
                beneficiary,
                tokens_redeemed: tb as i128,
                usdc_received: pay as i128,
                roi_percentage: v.spec_roi_percentage(),
            },
        )
    }
}

/// The state a successful `claim` leaves behind: the beneficiary's whole
/// token balance moved to the vault, the payout moved from the vault to
/// the beneficiary, the redemption counter grew by the claimed amount, and
/// every other vault field is untouched.
pub open spec fn claim_post(
    prev: VaultContract,
    postv: VaultContract,
    pret: Token,
    postt: Token,
    preu: Token,
    postu: Token,
    beneficiary: u64,
) -> bool {
    let tb = pret.bal(beneficiary);
    let pay = payout(tb, prev.spec_roi_percentage() as int);
    &&& contract::transfer_post(pret, postt, beneficiary, prev.spec_address(), tb as i128)
    &&& contract::transfer_post(preu, postu, prev.spec_address(), beneficiary, pay as i128)
    &&& postv.wf()
    &&& postv.spec_total_tokens_redeemed() == prev.spec_total_tokens_redeemed() + tb
    &&& postv.spec_address() == prev.spec_address()
    &&& postv.admin_is_set() == prev.admin_is_set()
    &&& postv.spec_admin() == prev.spec_admin()
    &&& postv.spec_enabled() == prev.spec_enabled()
    &&& postv.spec_roi_percentage() == prev.spec_roi_percentage()
    &&& postv.spec_token_address() == prev.spec_token_address()
    &&& postv.spec_usdc_address() == prev.spec_usdc_address()
}

/// What a successful claim does, spelled out for a beneficiary distinct
/// from the vault itself: the beneficiary's token balance becomes zero,
/// the vault's token balance grows by the claimed amount, the
/// beneficiary's stable-asset balance grows by the payout, the vault's
/// stable-asset balance shrinks by it, and the redemption counter grows by
/// the claimed amount. Both ledgers' total supplies are conserved.
pub proof fn lemma_claim_effects(
    prev: VaultContract,
    postv: VaultContract,
    pret: Token,
    postt: Token,
    preu: Token,
    postu: Token,
    beneficiary: u64,
)
    requires
        pret.wf(),
        claim_post(prev, postv, pret, postt, preu, postu, beneficiary),
        beneficiary != prev.spec_address(),
        pret.bal(beneficiary) * (100 + prev.spec_roi_percentage()) <= i128::MAX,
    ensures
        postt.bal(beneficiary) == 0,
        postt.bal(prev.spec_address()) == pret.bal(prev.spec_address()) + pret.bal(beneficiary),
        postt.total_supply() == pret.total_supply(),
        postu.bal(beneficiary) == preu.bal(beneficiary) + payout(
            pret.bal(beneficiary),
            prev.spec_roi_percentage() as int,
        ),
        postu.bal(prev.spec_address()) == preu.bal(prev.spec_address()) - payout(
            pret.bal(beneficiary),
            prev.spec_roi_percentage() as int,
        ),
        postu.total_supply() == preu.total_supply(),
        postv.spec_total_tokens_redeemed() == prev.spec_total_tokens_redeemed() + pret.bal(
            beneficiary,
        ),
        postv.spec_total_tokens_redeemed() >= prev.spec_total_tokens_redeemed(),
{
    let tb = pret.bal(beneficiary);
    let pay = payout(tb, prev.spec_roi_percentage() as int);
    contract::lemma_balance_nonnegative(pret, beneficiary);
    contract::lemma_balance_fits(pret, beneficiary);
    lemma_mul_nonnegative(tb, 100 + prev.spec_roi_percentage() as int);
    lemma_div_pos_is_pos(tb * (100 + prev.spec_roi_percentage() as int), 100);
    lemma_div_nonincreasing(tb * (100 + prev.spec_roi_percentage() as int), 100);
    assert(postt.bal(beneficiary) == pret.bal(beneficiary) - tb as i128);
    assert(postu.bal(beneficiary) == preu.bal(beneficiary) + pay as i128);
}

/// The outcome `initialize` promises, decided by the write-once guard and
/// the sign of the rate.
pub open spec fn initialize_result(pre: VaultContract, roi_percentage: i128) -> Result<
    (),
    ContractError,
> {
    if pre.admin_is_set() {
        Err(ContractError::AlreadyInitialized)
    } else if roi_percentage < 0 {
        Err(ContractError::InvalidAmount)
    } else {
        Ok(())
    }
}

/// The outcome `availability_for_exchange` promises.
pub open spec fn availability_result(
    pre: VaultContract,
    caller: u64,
    admin: u64,
    enabled: bool,
) -> Result<AvailabilityChangedEvent, ContractError> {
    if caller != admin {
        Err(ContractError::Unauthorized)
    } else if !pre.admin_is_set() {
        Err(ContractError::AdminNotFound)
    } else if admin != pre.spec_admin() {
        Err(ContractError::Unauthorized)
    } else {
        Ok(AvailabilityChangedEvent { admin, enabled })
    }
}

} // verus!
