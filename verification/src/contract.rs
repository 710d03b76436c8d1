//! The fungible-token ledger.
//!
//! A `Token` owns balances, allowances and immutable token metadata. Every
//! mutating operation takes a `caller`: the principal the surrounding
//! runtime's authorization oracle has vouched for on this invocation. An
//! operation whose required principal differs from `caller` fails with
//! `Unauthorized` and changes nothing.
//!
//! Each operation's contract names the exact result for every input and the
//! exact new state on success; on failure the ledger is untouched.

use crate::allowance::Allowances;
use crate::balance::Balances;
use crate::error::ContractError;
use crate::metadata;
use crate::metadata::{Metadata, TokenMetadata};
use vstd::prelude::*;

verus! {

/// True exactly when `amount` is non-negative. Every amount-taking
/// operation rejects a negative amount with `InvalidAmount`.
pub fn check_nonnegative_amount(amount: i128) -> (r: bool)
    ensures
        r <==> amount >= 0,
{
    amount >= 0
}

/// A fungible-token ledger: immutable metadata, a balance table and an
/// allowance table.
pub struct Token {
    meta: Metadata,
    balances: Balances,
    allowances: Allowances,
}

impl Token {
    /// The ledger's well-formedness invariant: both tables are well formed,
    /// so in particular every balance and every allowance is non-negative.
    pub closed spec fn wf(self) -> bool {
        self.balances.wf() && self.allowances.wf()
    }

    /// The balance of `id`; zero for a principal never credited.
    pub closed spec fn bal(self, id: u64) -> int {
        self.balances.bal(id)
    }

    /// The sum of all balances.
    pub closed spec fn total_supply(self) -> int {
        self.balances.total()
    }

    /// The recorded allowance amount for `(owner, spender)`.
    pub closed spec fn allowance_amount(self, owner: u64, spender: u64) -> int {
        self.allowances.amount_of(owner, spender)
    }

    /// The recorded allowance expiration for `(owner, spender)`.
    pub closed spec fn allowance_expiration(self, owner: u64, spender: u64) -> u32 {
        self.allowances.expiration_of(owner, spender)
    }

    /// The allowance that is actually spendable at `height`: an allowance
    /// whose expiration has passed counts as zero regardless of its
    /// recorded amount.
    pub open spec fn effective_allowance(self, owner: u64, spender: u64, height: u32) -> int {
        if self.allowance_expiration(owner, spender) < height {
            0
        } else {
            self.allowance_amount(owner, spender)
        }
    }

    /// The token's name.
    pub closed spec fn spec_name(self) -> Seq<char> {
        self.meta.spec_name()
    }

    /// The token's symbol.
    pub closed spec fn spec_symbol(self) -> Seq<char> {
        self.meta.spec_symbol()
    }

    /// The token's decimals.
    pub closed spec fn spec_decimal(self) -> u32 {
        self.meta.spec_decimal()
    }

    /// Whether the escrow id has been written.
    pub closed spec fn escrow_is_set(self) -> bool {
        self.meta.escrow_is_set()
    }

    /// The escrow id, once written.
    pub closed spec fn spec_escrow_id(self) -> Seq<char> {
        self.meta.spec_escrow_id()
    }

    /// Whether the mint authority has been written.
    pub closed spec fn authority_is_set(self) -> bool {
        self.meta.authority_is_set()
    }

    /// The mint authority, once written.
    pub closed spec fn spec_mint_authority(self) -> u64 {
        self.meta.spec_mint_authority()
    }
}

/// Both ledgers hold the same balances and the same total supply.
pub open spec fn same_balances(a: Token, b: Token) -> bool {
    &&& forall|id: u64| #![trigger b.bal(id)] b.bal(id) == a.bal(id)
    &&& b.total_supply() == a.total_supply()
}

/// Both ledgers hold the same allowance records.
pub open spec fn same_allowances(a: Token, b: Token) -> bool {
    forall|o: u64, p: u64|
        #![trigger b.allowance_amount(o, p)]
        #![trigger b.allowance_expiration(o, p)]
        b.allowance_amount(o, p) == a.allowance_amount(o, p) && b.allowance_expiration(o, p)
            == a.allowance_expiration(o, p)
}

/// Both ledgers carry the same metadata, guarded fields included.
pub open spec fn same_token_metadata(a: Token, b: Token) -> bool {
    &&& b.spec_name() == a.spec_name()
    &&& b.spec_symbol() == a.spec_symbol()
    &&& b.spec_decimal() == a.spec_decimal()
    &&& b.escrow_is_set() == a.escrow_is_set()
    &&& b.spec_escrow_id() == a.spec_escrow_id()
    &&& b.authority_is_set() == a.authority_is_set()
    &&& b.spec_mint_authority() == a.spec_mint_authority()
}

/// A freshly constructed ledger: the given metadata, every balance zero,
/// no allowance granted.
pub open spec fn fresh_token(
    t: Token,
    name: Seq<char>,
    symbol: Seq<char>,
    decimal: u32,
    escrow_id: Seq<char>,
    mint_authority: u64,
) -> bool {
    &&& t.wf()
    &&& t.spec_name() == name
    &&& t.spec_symbol() == symbol
    &&& t.spec_decimal() == decimal
    &&& t.escrow_is_set()
    &&& t.spec_escrow_id() == escrow_id
    &&& t.authority_is_set()
    &&& t.spec_mint_authority() == mint_authority
    &&& forall|id: u64| #![trigger t.bal(id)] t.bal(id) == 0
    &&& t.total_supply() == 0
    &&& forall|o: u64, p: u64|
        #![trigger t.allowance_amount(o, p)]
        #![trigger t.allowance_expiration(o, p)]
        t.allowance_amount(o, p) == 0 && t.allowance_expiration(o, p) == 0
}

impl Token {
    /// Create the ledger, writing all metadata once. The decimals must not
    /// exceed 18; the escrow id and the mint authority are fixed here for
    /// the ledger's whole life.
    pub fn __constructor(
        name: String,
        symbol: String,
        escrow_id: String,
        decimal: u32,
        mint_authority: u64,
    ) -> (r: Result<Token, ContractError>)
        ensures
            r is Ok <==> decimal <= 18,
            match r {
                Ok(t) => fresh_token(t, name@, symbol@, decimal, escrow_id@, mint_authority),
                Err(e) => e == ContractError::InvalidAmount,
            },
    {
        let mut token = Token {
            meta: Metadata::new(),
            balances: Balances::new(),
            allowances: Allowances::new(),
        };
        match token.initialize(name, symbol, decimal, escrow_id, mint_authority) {
            Ok(()) => Ok(token),
            Err(e) => Err(e),
        }
    }

    /// Write the metadata of a ledger whose guarded fields are still unset.
    /// Fails with `InvalidAmount` when `decimal > 18`, and with
    /// `AlreadyInitialized` when the escrow id or the mint authority was
    /// written before — in both cases nothing, the standard metadata
    /// included, is changed.
    pub fn initialize(
        &mut self,
        name: String,
        symbol: String,
        decimal: u32,
        escrow_id: String,
        mint_authority: u64,
    ) -> (r: Result<(), ContractError>)
        requires
            old(self).wf(),
        ensures
            r == initialize_result(*old(self), decimal),
            r is Ok ==> initialize_post(
                *old(self),
                *final(self),
                name@,
                symbol@,
                decimal,
                escrow_id@,
                mint_authority,
            ),
            r is Err ==> *final(self) == *old(self),
    {
        if decimal > 18 {
            return Err(ContractError::InvalidAmount);
        }
        if metadata::has_escrow_id(&self.meta) || metadata::has_mint_authority(&self.meta) {
            return Err(ContractError::AlreadyInitialized);
        }
        metadata::write_metadata(&mut self.meta, TokenMetadata { decimal, name, symbol });
        match metadata::write_escrow_id(&mut self.meta, escrow_id) {
            Ok(()) => (),
            Err(e) => {
                // Unreachable: the guard above saw the escrow id unset.
                proof {
                    assert(false);
                }
                return Err(e);
            },
        }
        match metadata::write_mint_authority(&mut self.meta, mint_authority) {
            Ok(()) => (),
            Err(e) => {
                // Unreachable: the guard above saw the authority unset.
                proof {
                    assert(false);
                }
                return Err(e);
            },
        }
        Ok(())
    }

    /// Read the balance of `id`.
    pub fn balance(&self, id: u64) -> (r: i128)
        requires
            self.wf(),
        ensures
            r as int == self.bal(id),
            r >= 0,
    {
        self.balances.read(id)
    }

    /// Read the allowance `from` has granted `spender`, as spendable at
    /// `ledger_height`: zero once the recorded expiration has passed.
    pub fn allowance(&self, from: u64, spender: u64, ledger_height: u32) -> (r: i128)
        requires
            self.wf(),
        ensures
            r as int == self.effective_allowance(from, spender, ledger_height),
            r >= 0,
    {
        let (amount, expiration) = self.allowances.read(from, spender);
        if expiration < ledger_height {
            0
        } else {
            amount
        }
    }

    /// The token's decimals.
    pub fn decimals(&self) -> (r: u32)
        ensures
            r == self.spec_decimal(),
    {
        metadata::read_decimal(&self.meta)
    }

    /// The token's name.
    pub fn name(&self) -> (r: &String)
        ensures
            r@ == self.spec_name(),
    {
        metadata::read_name(&self.meta)
    }

    /// The token's symbol.
    pub fn symbol(&self) -> (r: &String)
        ensures
            r@ == self.spec_symbol(),
    {
        metadata::read_symbol(&self.meta)
    }

    /// The escrow id fixed at creation.
    pub fn escrow_id(&self) -> (r: &String)
        requires
            self.escrow_is_set(),
        ensures
            r@ == self.spec_escrow_id(),
    {
        metadata::read_escrow_id(&self.meta)
    }

    /// The mint authority fixed at creation.
    pub fn mint_authority(&self) -> (r: u64)
        requires
            self.authority_is_set(),
        ensures
            r == self.spec_mint_authority(),
    {
        metadata::read_mint_authority(&self.meta)
    }

    /// Mint `amount` new tokens to `to`. Only the mint authority fixed at
    /// initialization may mint — never the deployer, never an admin.
    pub fn mint(&mut self, caller: u64, to: u64, amount: i128) -> (r: Result<(), ContractError>)
        requires
            old(self).wf(),
            old(self).authority_is_set(),
            old(self).bal(to) + amount <= i128::MAX,
        ensures
            r == mint_result(*old(self), caller, to, amount),
            r is Ok ==> mint_post(*old(self), *final(self), to, amount),
            r is Err ==> *final(self) == *old(self),
    {
        if !check_nonnegative_amount(amount) {
            return Err(ContractError::InvalidAmount);
        }
        let authority = self.mint_authority();
        if caller != authority {
            return Err(ContractError::Unauthorized);
        }
        self.balances.receive(to, amount);
        Ok(())
    }

    /// Overwrite the allowance `from` grants `spender` with exactly
    /// `amount`, spendable until `expiration_ledger` has passed. Requires
    /// `from`'s authorization. Setting amount zero is the canonical clear.
    pub fn approve(
        &mut self,
        caller: u64,
        from: u64,
        spender: u64,
        amount: i128,
        expiration_ledger: u32,
    ) -> (r: Result<(), ContractError>)
        requires
            old(self).wf(),
        ensures
            r == approve_result(*old(self), caller, from, amount),
            r is Ok ==> approve_post(
                *old(self),
                *final(self),
                from,
                spender,
                amount,
                expiration_ledger,
            ),
            r is Err ==> *final(self) == *old(self),
    {
        if caller != from {
            return Err(ContractError::Unauthorized);
        }
        if !check_nonnegative_amount(amount) {
            return Err(ContractError::InvalidAmount);
        }
        self.allowances.write(from, spender, amount, expiration_ledger);
        Ok(())
    }

    /// Move `amount` from `from` to `to`. Requires `from`'s authorization;
    /// fails with `InsufficientBalance` when `from` cannot cover it.
    pub fn transfer(&mut self, caller: u64, from: u64, to: u64, amount: i128) -> (r: Result<
        (),
        ContractError,
    >)
        requires
            old(self).wf(),
            old(self).bal(to) + amount <= i128::MAX,
        ensures
            r == transfer_result(*old(self), caller, from, to, amount),
            r is Ok ==> transfer_post(*old(self), *final(self), from, to, amount),
            r is Err ==> *final(self) == *old(self),
    {
        if caller != from {
            return Err(ContractError::Unauthorized);
        }
        if !check_nonnegative_amount(amount) {
            return Err(ContractError::InvalidAmount);
        }
        let from_balance = self.balances.read(from);
        if from_balance < amount {
            return Err(ContractError::InsufficientBalance);
        }
        self.balances.spend(from, amount);
        self.balances.receive(to, amount);
        Ok(())
    }

    /// Move `amount` from `from` to `to` on behalf of `from`, consuming the
    /// allowance `from` granted `spender`. Requires `spender`'s
    /// authorization. The allowance — zero once expired — is consumed
    /// before the balance is checked or moved.
    pub fn transfer_from(
        &mut self,
        caller: u64,
        spender: u64,
        from: u64,
        to: u64,
        amount: i128,
        ledger_height: u32,
    ) -> (r: Result<(), ContractError>)
        requires
            old(self).wf(),
            old(self).bal(to) + amount <= i128::MAX,
        ensures
            r == transfer_from_result(*old(self), caller, spender, from, to, amount, ledger_height),
            r is Ok ==> transfer_from_post(
                *old(self),
                *final(self),
                spender,
                from,
                to,
                amount,
                ledger_height,
            ),
            r is Err ==> *final(self) == *old(self),
    {
        if caller != spender {
            return Err(ContractError::Unauthorized);
        }
        if !check_nonnegative_amount(amount) {
            return Err(ContractError::InvalidAmount);
        }
        let (recorded, expiration) = self.allowances.read(from, spender);
        let effective = if expiration < ledger_height {
            0
        } else {
            recorded
        };
        if effective < amount {
            return Err(ContractError::InsufficientAllowance);
        }
        let from_balance = self.balances.read(from);
        if from_balance < amount {
            return Err(ContractError::InsufficientBalance);
        }
        self.allowances.write(from, spender, effective - amount, expiration);
        self.balances.spend(from, amount);
        self.balances.receive(to, amount);
        Ok(())
    }

    /// Destroy `amount` of `from`'s balance. Requires `from`'s
    /// authorization.
    pub fn burn(&mut self, caller: u64, from: u64, amount: i128) -> (r: Result<(), ContractError>)
        requires
            old(self).wf(),
        ensures
            r == burn_result(*old(self), caller, from, amount),
            r is Ok ==> burn_post(*old(self), *final(self), from, amount),
            r is Err ==> *final(self) == *old(self),
    {
        if caller != from {
            return Err(ContractError::Unauthorized);
        }
        if !check_nonnegative_amount(amount) {
            return Err(ContractError::InvalidAmount);
        }
        let from_balance = self.balances.read(from);
        if from_balance < amount {
            return Err(ContractError::InsufficientBalance);
        }
        self.balances.spend(from, amount);
        Ok(())
    }

    /// Destroy `amount` of `from`'s balance on behalf of `from`, consuming
    /// the allowance `from` granted `spender`. Requires `spender`'s
    /// authorization; the allowance rules are those of `transfer_from`.
    pub fn burn_from(
        &mut self,
        caller: u64,
        spender: u64,
        from: u64,
        amount: i128,
        ledger_height: u32,
    ) -> (r: Result<(), ContractError>)
        requires
            old(self).wf(),
        ensures
            r == burn_from_result(*old(self), caller, spender, from, amount, ledger_height),
            r is Ok ==> burn_from_post(
                *old(self),
                *final(self),
                spender,
                from,
                amount,
                ledger_height,
            ),
            r is Err ==> *final(self) == *old(self),
    {
        if caller != spender {
            return Err(ContractError::Unauthorized);
        }
        if !check_nonnegative_amount(amount) {
            return Err(ContractError::InvalidAmount);
        }
        let (recorded, expiration) = self.allowances.read(from, spender);
        let effective = if expiration < ledger_height {
            0
        } else {
            recorded
        };
        if effective < amount {
            return Err(ContractError::InsufficientAllowance);
        }
        let from_balance = self.balances.read(from);
        if from_balance < amount {
            return Err(ContractError::InsufficientBalance);
        }
        self.allowances.write(from, spender, effective - amount, expiration);
        self.balances.spend(from, amount);
        Ok(())
    }
}

/// No balance a well-formed ledger records is ever negative.
pub proof fn lemma_balance_nonnegative(t: Token, id: u64)
    requires
        t.wf(),
    ensures
        t.bal(id) >= 0,
{
    t.balances.lemma_nonnegative(id);
}

/// Every balance a ledger records fits the machine amount type.
pub proof fn lemma_balance_fits(t: Token, id: u64)
    ensures
        t.bal(id) <= i128::MAX,
{
    t.balances.lemma_bounded(id);
}

/// A transfer of `amount` from `from` to `to`, with the two distinct,
/// decreases `from` by exactly `amount`, increases `to` by exactly
/// `amount`, leaves every other balance alone and conserves the total
/// supply.
pub proof fn lemma_transfer_moves_exactly(
    pre: Token,
    post: Token,
    from: u64,
    to: u64,
    amount: i128,
)
    requires
        transfer_post(pre, post, from, to, amount),
        from != to,
    ensures
        post.bal(from) == pre.bal(from) - amount,
        post.bal(to) == pre.bal(to) + amount,
        forall|id: u64| id != from && id != to ==> #[trigger] post.bal(id) == pre.bal(id),
        post.total_supply() == pre.total_supply(),
{
}

/// Minting is delegated exclusively to the stored mint authority: any
/// other caller — the deployer included — fails, with `Unauthorized` when
/// the amount itself was acceptable.
pub proof fn lemma_mint_requires_authority(pre: Token, caller: u64, to: u64, amount: i128)
    requires
        caller != pre.spec_mint_authority(),
    ensures
        mint_result(pre, caller, to, amount) is Err,
        amount >= 0 ==> mint_result(pre, caller, to, amount) == Result::<(), ContractError>::Err(
            ContractError::Unauthorized,
        ),
{
}

/// `approve` is idempotent in effect: granting the same allowance twice
/// with identical arguments yields exactly the allowance record — and the
/// ledger state — that the first grant yielded.
pub proof fn lemma_approve_idempotent(
    pre: Token,
    mid: Token,
    post: Token,
    from: u64,
    spender: u64,
    amount: i128,
    expiration_ledger: u32,
)
    requires
        approve_post(pre, mid, from, spender, amount, expiration_ledger),
        approve_post(mid, post, from, spender, amount, expiration_ledger),
    ensures
        same_allowances(mid, post),
        same_balances(mid, post),
        same_token_metadata(mid, post),
{
}

/// An approval of amount zero fully clears future `transfer_from` by the
/// spender: the effective allowance is zero at every height, so any
/// positive spend fails with `InsufficientAllowance`.
pub proof fn lemma_zero_allowance_blocks(
    t: Token,
    from: u64,
    spender: u64,
    to: u64,
    amount: i128,
    height: u32,
)
    requires
        t.allowance_amount(from, spender) == 0,
        amount > 0,
    ensures
        t.effective_allowance(from, spender, height) == 0,
        transfer_from_result(t, spender, spender, from, to, amount, height) == Result::<
            (),
            ContractError,
        >::Err(ContractError::InsufficientAllowance),
{
}

/// The allowance is consumed before the balance is checked: when the
/// effective allowance cannot cover the amount, `transfer_from` reports
/// `InsufficientAllowance` no matter what the balance holds — so an
/// expired-but-nonzero-recorded allowance blocks the transfer even when
/// the balance would suffice.
pub proof fn lemma_allowance_checked_before_balance(
    t: Token,
    spender: u64,
    from: u64,
    to: u64,
    amount: i128,
    height: u32,
)
    requires
        amount >= 0,
        t.effective_allowance(from, spender, height) < amount,
    ensures
        transfer_from_result(t, spender, spender, from, to, amount, height) == Result::<
            (),
            ContractError,
        >::Err(ContractError::InsufficientAllowance),
{
}

/// The outcome `initialize` promises, decided by the decimals and the
/// write-once guards alone.
pub open spec fn initialize_result(pre: Token, decimal: u32) -> Result<(), ContractError> {
    if decimal > 18 {
        Err(ContractError::InvalidAmount)
    } else if pre.escrow_is_set() || pre.authority_is_set() {
        Err(ContractError::AlreadyInitialized)
    } else {
        Ok(())
    }
}

/// The outcome `mint` promises. Minting is delegated exclusively to the
/// mint authority fixed at initialization: no other caller — the deployer
/// included — may mint.
pub open spec fn mint_result(pre: Token, caller: u64, to: u64, amount: i128) -> Result<
    (),
    ContractError,
> {
    if amount < 0 {
        Err(ContractError::InvalidAmount)
    } else if caller != pre.spec_mint_authority() {
        Err(ContractError::Unauthorized)
    } else {
        Ok(())
    }
}

/// The state a successful `mint` leaves behind: `to` is credited `amount`,
/// the total supply grows by `amount`, nothing else moves.
pub open spec fn mint_post(pre: Token, post: Token, to: u64, amount: i128) -> bool {
    &&& post.wf()
    &&& forall|id: u64|
        #![trigger post.bal(id)]
        post.bal(id) == pre.bal(id) + (if id == to {
            amount as int
        } else {
            0int
        })
    &&& post.total_supply() == pre.total_supply() + amount
    &&& same_allowances(pre, post)
    &&& same_token_metadata(pre, post)
}

/// The outcome `approve` promises.
pub open spec fn approve_result(pre: Token, caller: u64, from: u64, amount: i128) -> Result<
    (),
    ContractError,
> {
    if caller != from {
        Err(ContractError::Unauthorized)
    } else if amount < 0 {
        Err(ContractError::InvalidAmount)
    } else {
        Ok(())
    }
}

/// The state a successful `approve` leaves behind: the `(from, spender)`
/// allowance record is overwritten — not added to — with exactly the given
/// amount and expiration, and nothing else moves.
pub open spec fn approve_post(
    pre: Token,
    post: Token,
    from: u64,
    spender: u64,
    amount: i128,
    expiration_ledger: u32,
) -> bool {
    &&& post.wf()
    &&& post.allowance_amount(from, spender) == amount as int
    &&& post.allowance_expiration(from, spender) == expiration_ledger
    &&& forall|o: u64, p: u64|
        #![trigger post.allowance_amount(o, p)]
        #![trigger post.allowance_expiration(o, p)]
        !(o == from && p == spender) ==> post.allowance_amount(o, p) == pre.allowance_amount(o, p)
            && post.allowance_expiration(o, p) == pre.allowance_expiration(o, p)
    &&& same_balances(pre, post)
    &&& same_token_metadata(pre, post)
}

/// The outcome `transfer` promises.
pub open spec fn transfer_result(
    pre: Token,
    caller: u64,
    from: u64,
    to: u64,
    amount: i128,
) -> Result<(), ContractError> {
    if caller != from {
        Err(ContractError::Unauthorized)
    } else if amount < 0 {
        Err(ContractError::InvalidAmount)
    } else if pre.bal(from) < amount {
        Err(ContractError::InsufficientBalance)
    } else {
        Ok(())
    }
}

/// The state a successful `transfer` leaves behind: `from` is debited and
/// `to` credited the same amount atomically, conserving the total supply;
/// every other balance, all allowances and the metadata are untouched.
pub open spec fn transfer_post(pre: Token, post: Token, from: u64, to: u64, amount: i128) -> bool {
    &&& post.wf()
    &&& forall|id: u64|
        #![trigger post.bal(id)]
        post.bal(id) == pre.bal(id) + (if id == to {
            amount as int
        } else {
            0int
        }) - (if id == from {
            amount as int
        } else {
            0int
        })
    &&& post.total_supply() == pre.total_supply()
    &&& same_allowances(pre, post)
    &&& same_token_metadata(pre, post)
}

/// The outcome `transfer_from` promises. The allowance is consulted before
/// the balance, so an expired-but-nonzero-recorded allowance blocks the
/// transfer even when the balance would suffice.
pub open spec fn transfer_from_result(
    pre: Token,
    caller: u64,
    spender: u64,
    from: u64,
    to: u64,
    amount: i128,
    height: u32,
) -> Result<(), ContractError> {
    if caller != spender {
        Err(ContractError::Unauthorized)
    } else if amount < 0 {
        Err(ContractError::InvalidAmount)
    } else if pre.effective_allowance(from, spender, height) < amount {
        Err(ContractError::InsufficientAllowance)
    } else if pre.bal(from) < amount {
        Err(ContractError::InsufficientBalance)
    } else {
        Ok(())
    }
}

/// The state a successful spend of an allowance leaves behind: the
/// `(from, spender)` record now holds what was effective at `height` minus
/// the spent amount, its expiration is kept, and no other record moves.
pub open spec fn spend_allowance_post(
    pre: Token,
    post: Token,
    from: u64,
    spender: u64,
    amount: i128,
    height: u32,
) -> bool {
    &&& post.allowance_amount(from, spender) == pre.effective_allowance(from, spender, height)
        - amount
    &&& post.allowance_expiration(from, spender) == pre.allowance_expiration(from, spender)
    &&& forall|o: u64, p: u64|
        #![trigger post.allowance_amount(o, p)]
        #![trigger post.allowance_expiration(o, p)]
        !(o == from && p == spender) ==> post.allowance_amount(o, p) == pre.allowance_amount(o, p)
            && post.allowance_expiration(o, p) == pre.allowance_expiration(o, p)
}

/// The state a successful `transfer_from` leaves behind: the balance moves
/// as in `transfer`, and the spent allowance is decremented.
pub open spec fn transfer_from_post(
    pre: Token,
    post: Token,
    spender: u64,
    from: u64,
    to: u64,
    amount: i128,
    height: u32,
) -> bool {
    &&& post.wf()
    &&& forall|id: u64|
        #![trigger post.bal(id)]
        post.bal(id) == pre.bal(id) + (if id == to {
            amount as int
        } else {
            0int
        }) - (if id == from {
            amount as int
        } else {
            0int
        })
    &&& post.total_supply() == pre.total_supply()
    &&& spend_allowance_post(pre, post, from, spender, amount, height)
    &&& same_token_metadata(pre, post)
}

/// The outcome `burn` promises.
pub open spec fn burn_result(pre: Token, caller: u64, from: u64, amount: i128) -> Result<
    (),
    ContractError,
> {
    if caller != from {
        Err(ContractError::Unauthorized)
    } else if amount < 0 {
        Err(ContractError::InvalidAmount)
    } else if pre.bal(from) < amount {
        Err(ContractError::InsufficientBalance)
    } else {
        Ok(())
    }
}

/// The state a successful `burn` leaves behind: `from` is debited `amount`
/// and the value is destroyed — the total supply shrinks by `amount`.
pub open spec fn burn_post(pre: Token, post: Token, from: u64, amount: i128) -> bool {
    &&& post.wf()
    &&& forall|id: u64|
        #![trigger post.bal(id)]
        post.bal(id) == pre.bal(id) - (if id == from {
            amount as int
        } else {
            0int
        })
    &&& post.total_supply() == pre.total_supply() - amount
    &&& same_allowances(pre, post)
    &&& same_token_metadata(pre, post)
}

/// The outcome `burn_from` promises; the allowance rules are those of
/// `transfer_from`.
pub open spec fn burn_from_result(
    pre: Token,
    caller: u64,
    spender: u64,
    from: u64,
    amount: i128,
    height: u32,
) -> Result<(), ContractError> {
    if caller != spender {
        Err(ContractError::Unauthorized)
    } else if amount < 0 {
        Err(ContractError::InvalidAmount)
    } else if pre.effective_allowance(from, spender, height) < amount {
        Err(ContractError::InsufficientAllowance)
    } else if pre.bal(from) < amount {
        Err(ContractError::InsufficientBalance)
    } else {
        Ok(())
    }
}

/// The state a successful `burn_from` leaves behind: the balance is
/// destroyed as in `burn`, and the spent allowance is decremented.
pub open spec fn burn_from_post(
    pre: Token,
    post: Token,
    spender: u64,
    from: u64,
    amount: i128,
    height: u32,
) -> bool {
    &&& post.wf()
    &&& forall|id: u64|
        #![trigger post.bal(id)]
        post.bal(id) == pre.bal(id) - (if id == from {
            amount as int
        } else {
            0int
        })
    &&& post.total_supply() == pre.total_supply() - amount
    &&& spend_allowance_post(pre, post, from, spender, amount, height)
    &&& same_token_metadata(pre, post)
}

/// The state a successful `initialize` leaves behind: all metadata written,
/// balances and allowances untouched.
pub open spec fn initialize_post(
    pre: Token,
    post: Token,
    name: Seq<char>,
    symbol: Seq<char>,
    decimal: u32,
    escrow_id: Seq<char>,
    mint_authority: u64,
) -> bool {
    &&& post.wf()
    &&& post.spec_name() == name
    &&& post.spec_symbol() == symbol
    &&& post.spec_decimal() == decimal
    &&& post.escrow_is_set()
    &&& post.spec_escrow_id() == escrow_id
    &&& post.authority_is_set()
    &&& post.spec_mint_authority() == mint_authority
    &&& same_balances(pre, post)
    &&& same_allowances(pre, post)
}

} // verus!
