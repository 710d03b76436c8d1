//! The purchase flow: a stateless orchestrator that takes payer funds into
//! an escrow account and, in the same operation, has the token ledger mint
//! participation tokens to a beneficiary.
//!
//! Both steps succeed or the whole operation is rejected: no state in which
//! the escrow received funds but nothing was minted can persist.

use crate::contract;
use crate::contract::Token;
use crate::error::ContractError;
use vstd::prelude::*;

verus! {

/// The purchase flow's configuration: where payer funds go, and which
/// token ledger is minted against.
#[derive(Clone, Copy, Debug, PartialEq, Eq, Structural)]
pub struct Config {
    pub escrow_contract: u64,
    pub sale_token: u64,
}

/// The purchase flow. It acts as the registered mint authority of the sale
/// token, so its own principal (`address`) is what the ledger's mint
/// checks; `admin` alone may repoint the sale token.
pub struct TokenSaleContract {
    address: u64,
    admin: u64,
    config: Config,
}

impl TokenSaleContract {
    /// The flow's own principal, under which it mints.
    pub closed spec fn spec_address(self) -> u64 {
        self.address
    }

    /// The admin who may repoint the sale token.
    pub closed spec fn spec_admin(self) -> u64 {
        self.admin
    }

    /// The configured escrow principal.
    pub closed spec fn spec_escrow_contract(self) -> u64 {
        self.config.escrow_contract
    }

    /// The configured sale-token ledger reference.
    pub closed spec fn spec_sale_token(self) -> u64 {
        self.config.sale_token
    }

    /// Create the flow with its escrow destination and its sale token.
    pub fn __constructor(address: u64, admin: u64, escrow_contract: u64, sale_token: u64) -> (r:
        TokenSaleContract)
        ensures
            r.spec_address() == address,
            r.spec_admin() == admin,
            r.spec_escrow_contract() == escrow_contract,
            r.spec_sale_token() == sale_token,
    {
        TokenSaleContract { address, admin, config: Config { escrow_contract, sale_token } }
    }

    /// Repoint which token ledger subsequent purchases mint against,
    /// leaving the escrow reference unchanged. Requires the flow's own
    /// admin authorization.
    pub fn set_token(&mut self, caller: u64, new_token: u64) -> (r: Result<(), ContractError>)
        ensures
            r is Ok <==> caller == old(self).spec_admin(),
            r is Err ==> r == Result::<(), ContractError>::Err(ContractError::Unauthorized)
                && *final(self) == *old(self),
            r is Ok ==> final(self).spec_sale_token() == new_token,
            r is Ok ==> final(self).spec_escrow_contract() == old(self).spec_escrow_contract(),
            r is Ok ==> final(self).spec_admin() == old(self).spec_admin(),
            r is Ok ==> final(self).spec_address() == old(self).spec_address(),
    {
        if caller != self.admin {
            return Err(ContractError::Unauthorized);
        }
        self.config.sale_token = new_token;
        Ok(())
    }

    /// Exchange `amount` of the stable asset for `amount` newly minted
    /// participation tokens: move the stable asset from `payer` to the
    /// configured escrow principal, then mint to `beneficiary`. Requires
    /// `payer`'s authorization; the mint is authorized by the flow acting
    /// as the ledger's registered mint authority. Both steps apply or
    /// neither does.
    pub fn buy(
        &self,
        caller: u64,
        usdc: &mut Token,
        payer: u64,
        beneficiary: u64,
        amount: i128,
        sale_token: &mut Token,
    ) -> (r: Result<(), ContractError>)
        requires
            old(usdc).wf(),
            old(sale_token).wf(),
            old(sale_token).authority_is_set(),
            old(usdc).bal(self.spec_escrow_contract()) + amount <= i128::MAX,
            old(sale_token).bal(beneficiary) + amount <= i128::MAX,
        ensures
            r == buy_result(*self, *old(usdc), *old(sale_token), caller, payer, amount),
            r is Ok ==> contract::transfer_post(
                *old(usdc),
                *final(usdc),
                payer,
                self.spec_escrow_contract(),
                amount,
            ) && contract::mint_post(*old(sale_token), *final(sale_token), beneficiary, amount),
            r is Err ==> *final(usdc) == *old(usdc) && *final(sale_token) == *old(sale_token),
    {
        if caller != payer {
            return Err(ContractError::Unauthorized);
        }
        if !contract::check_nonnegative_amount(amount) {
            return Err(ContractError::InvalidAmount);
        }
        if usdc.balance(payer) < amount {
            return Err(ContractError::InsufficientBalance);
        }
        if sale_token.mint_authority() != self.address {
            return Err(ContractError::Unauthorized);
        }
        match usdc.transfer(payer, payer, self.config.escrow_contract, amount) {
            Ok(()) => (),
            Err(e) => {
                // Unreachable: the payer's balance was checked to cover it.
                proof {
                    assert(false);
                }
                return Err(e);
            },
        }
        match sale_token.mint(self.address, beneficiary, amount) {
            Ok(()) => (),
            Err(e) => {
                // Unreachable: the flow was checked to be the authority.
                proof {
                    assert(false);
                }
                return Err(e);
            },
        }
        Ok(())
    }
}

/// The outcome `buy` promises: the payer must have authorized the call and
/// must hold the amount, and the flow itself must be the sale token's
/// registered mint authority. The stable-asset step is decided before the
/// mint step, as the steps run.
pub open spec fn buy_result(
    sale: TokenSaleContract,
    usdc: Token,
    sale_token: Token,
    caller: u64,
    payer: u64,
    amount: i128,
) -> Result<(), ContractError> {
    if caller != payer {
        Err(ContractError::Unauthorized)
    } else if amount < 0 {
        Err(ContractError::InvalidAmount)
    } else if usdc.bal(payer) < amount {
        Err(ContractError::InsufficientBalance)
    } else if sale_token.spec_mint_authority() != sale.spec_address() {
        Err(ContractError::Unauthorized)
    } else {
        Ok(())
    }
}

/// Read the flow's configuration.
pub fn read_config(c: &TokenSaleContract) -> (r: Config)
    ensures
        r.escrow_contract == c.spec_escrow_contract(),
        r.sale_token == c.spec_sale_token(),
{
    c.config
}

/// Overwrite the flow's configuration with the given escrow destination
/// and sale token.
pub fn write_config(c: &mut TokenSaleContract, escrow_contract: u64, sale_token: u64)
    ensures
        final(c).spec_escrow_contract() == escrow_contract,
        final(c).spec_sale_token() == sale_token,
        final(c).spec_admin() == old(c).spec_admin(),
        final(c).spec_address() == old(c).spec_address(),
{
    c.config = Config { escrow_contract, sale_token };
}

} // verus!
