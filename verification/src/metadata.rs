//! Token metadata and its write-once guards.
//!
//! The standard fields (name, symbol, decimals) may be rewritten at will;
//! the escrow id and the mint authority transition from unset to set exactly
//! once, and any later write fails with `AlreadyInitialized` no matter what
//! value it carries.

use crate::error::ContractError;
use vstd::prelude::*;

verus! {

/// The standard, freely re-writable part of a token's metadata.
#[derive(Debug)]
pub struct TokenMetadata {
    pub decimal: u32,
    pub name: String,
    pub symbol: String,
}

/// A token's full metadata: the standard fields plus the two fields that
/// may be written exactly once.
pub struct Metadata {
    standard: TokenMetadata,
    escrow_id: Option<String>,
    mint_authority: Option<u64>,
}

impl Metadata {
    /// The token's name.
    pub closed spec fn spec_name(self) -> Seq<char> {
        self.standard.name@
    }

    /// The token's symbol.
    pub closed spec fn spec_symbol(self) -> Seq<char> {
        self.standard.symbol@
    }

    /// The token's decimals.
    pub closed spec fn spec_decimal(self) -> u32 {
        self.standard.decimal
    }

    /// Whether the escrow id has been written.
    pub closed spec fn escrow_is_set(self) -> bool {
        self.escrow_id is Some
    }

    /// The escrow id, once written.
    pub closed spec fn spec_escrow_id(self) -> Seq<char> {
        match self.escrow_id {
            Some(s) => s@,
            None => Seq::empty(),
        }
    }

    /// Whether the mint authority has been written.
    pub closed spec fn authority_is_set(self) -> bool {
        self.mint_authority is Some
    }

    /// The mint authority, once written.
    pub closed spec fn spec_mint_authority(self) -> u64 {
        match self.mint_authority {
            Some(a) => a,
            None => 0,
        }
    }

    /// Fresh metadata: empty standard fields, both guarded fields unset.
    pub fn new() -> (r: Metadata)
        ensures
            r.spec_name() == Seq::<char>::empty(),
            r.spec_symbol() == Seq::<char>::empty(),
            r.spec_decimal() == 0,
            !r.escrow_is_set(),
            !r.authority_is_set(),
    {
        Metadata {
            standard: TokenMetadata { decimal: 0, name: String::new(), symbol: String::new() },
            escrow_id: None,
            mint_authority: None,
        }
    }
}

/// Both metadata values agree on every field, guarded fields included.
pub open spec fn same_metadata(a: Metadata, b: Metadata) -> bool {
    &&& a.spec_name() == b.spec_name()
    &&& a.spec_symbol() == b.spec_symbol()
    &&& a.spec_decimal() == b.spec_decimal()
    &&& a.escrow_is_set() == b.escrow_is_set()
    &&& a.spec_escrow_id() == b.spec_escrow_id()
    &&& a.authority_is_set() == b.authority_is_set()
    &&& a.spec_mint_authority() == b.spec_mint_authority()
}

/// Both metadata values agree on every field but the escrow id.
pub open spec fn same_but_escrow_id(a: Metadata, b: Metadata) -> bool {
    &&& a.spec_name() == b.spec_name()
    &&& a.spec_symbol() == b.spec_symbol()
    &&& a.spec_decimal() == b.spec_decimal()
    &&& a.authority_is_set() == b.authority_is_set()
    &&& a.spec_mint_authority() == b.spec_mint_authority()
}

/// Both metadata values agree on every field but the mint authority.
pub open spec fn same_but_mint_authority(a: Metadata, b: Metadata) -> bool {
    &&& a.spec_name() == b.spec_name()
    &&& a.spec_symbol() == b.spec_symbol()
    &&& a.spec_decimal() == b.spec_decimal()
    &&& a.escrow_is_set() == b.escrow_is_set()
    &&& a.spec_escrow_id() == b.spec_escrow_id()
}

/// The token's decimals.
pub fn read_decimal(m: &Metadata) -> (r: u32)
    ensures
        r == m.spec_decimal(),
{
    m.standard.decimal
}

/// The token's name.
pub fn read_name(m: &Metadata) -> (r: &String)
    ensures
        r@ == m.spec_name(),
{
    &m.standard.name
}

/// The token's symbol.
pub fn read_symbol(m: &Metadata) -> (r: &String)
    ensures
        r@ == m.spec_symbol(),
{
    &m.standard.symbol
}

/// Overwrite the standard metadata. The standard fields are safely
/// re-writable; the guarded fields are untouched.
pub fn write_metadata(m: &mut Metadata, metadata: TokenMetadata)
    ensures
        final(m).spec_name() == metadata.name@,
        final(m).spec_symbol() == metadata.symbol@,
        final(m).spec_decimal() == metadata.decimal,
        final(m).escrow_is_set() == old(m).escrow_is_set(),
        final(m).spec_escrow_id() == old(m).spec_escrow_id(),
        final(m).authority_is_set() == old(m).authority_is_set(),
        final(m).spec_mint_authority() == old(m).spec_mint_authority(),
{
    m.standard = metadata;
}

/// Whether the escrow id has been written yet.
pub fn has_escrow_id(m: &Metadata) -> (r: bool)
    ensures
        r == m.escrow_is_set(),
{
    m.escrow_id.is_some()
}

/// Whether the mint authority has been written yet.
pub fn has_mint_authority(m: &Metadata) -> (r: bool)
    ensures
        r == m.authority_is_set(),
{
    m.mint_authority.is_some()
}

/// The escrow id. Reading it before it was written is not meaningful.
pub fn read_escrow_id(m: &Metadata) -> (r: &String)
    requires
        m.escrow_is_set(),
    ensures
        r@ == m.spec_escrow_id(),
{
    m.escrow_id.as_ref().unwrap()
}

/// The outcome `write_escrow_id` promises: it fails exactly when the escrow
/// id was already set, whatever the new value is.
pub open spec fn write_escrow_id_result(m: Metadata) -> Result<(), ContractError> {
    if m.escrow_is_set() {
        Err(ContractError::AlreadyInitialized)
    } else {
        Ok(())
    }
}

/// Write the escrow id. It can be set exactly once: a second write fails
/// with `AlreadyInitialized` and changes nothing, even when the new value
/// equals the stored one.
pub fn write_escrow_id(m: &mut Metadata, escrow_id: String) -> (r: Result<(), ContractError>)
    ensures
        r == write_escrow_id_result(*old(m)),
        r is Ok ==> final(m).escrow_is_set() && final(m).spec_escrow_id() == escrow_id@,
        r is Ok ==> same_but_escrow_id(*final(m), *old(m)),
        r is Err ==> same_metadata(*final(m), *old(m)),
{
    if m.escrow_id.is_some() {
        return Err(ContractError::AlreadyInitialized);
    }
    m.escrow_id = Some(escrow_id);
    Ok(())
}

/// The outcome `write_mint_authority` promises: it fails exactly when the
/// mint authority was already set, whatever the new value is.
pub open spec fn write_mint_authority_result(m: Metadata) -> Result<(), ContractError> {
    if m.authority_is_set() {
        Err(ContractError::AlreadyInitialized)
    } else {
        Ok(())
    }
}

/// The mint authority. Reading it before it was written is not meaningful.
pub fn read_mint_authority(m: &Metadata) -> (r: u64)
    requires
        m.authority_is_set(),
    ensures
        r == m.spec_mint_authority(),
{
    match m.mint_authority {
        Some(a) => a,
        None => 0,
    }
}

/// Write the mint authority. It can be set exactly once: a second write
/// fails with `AlreadyInitialized` and changes nothing, even when the new
/// value equals the stored one.
pub fn write_mint_authority(m: &mut Metadata, mint_authority: u64) -> (r: Result<
    (),
    ContractError,
>)
    ensures
        r == write_mint_authority_result(*old(m)),
        r is Ok ==> final(m).authority_is_set() && final(m).spec_mint_authority()
            == mint_authority,
        r is Ok ==> same_but_mint_authority(*final(m), *old(m)),
        r is Err ==> same_metadata(*final(m), *old(m)),
{
    if m.mint_authority.is_some() {
        return Err(ContractError::AlreadyInitialized);
    }
    m.mint_authority = Some(mint_authority);
    Ok(())
}

/// Once a write of the escrow id has succeeded, every later write of the
/// escrow id fails, regardless of whether the new value equals the old one.
pub proof fn lemma_escrow_id_write_once(before: Metadata, after: Metadata, written: Seq<char>)
    requires
        write_escrow_id_result(before) is Ok,
        after.escrow_is_set(),
        after.spec_escrow_id() == written,
    ensures
        write_escrow_id_result(after) == Result::<(), ContractError>::Err(
            ContractError::AlreadyInitialized,
        ),
{
}

/// Once a write of the mint authority has succeeded, every later write of
/// the mint authority fails, regardless of whether the new value equals the
/// old one.
pub proof fn lemma_mint_authority_write_once(before: Metadata, after: Metadata, written: u64)
    requires
        write_mint_authority_result(before) is Ok,
        after.authority_is_set(),
        after.spec_mint_authority() == written,
    ensures
        write_mint_authority_result(after) == Result::<(), ContractError>::Err(
            ContractError::AlreadyInitialized,
        ),
{
}

} // verus!
