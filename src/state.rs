//! The escrow record and the token-ledger accounts the escrow reads.
use crate::address::{is_associated, verify_associated_address, Key};
use vstd::prelude::*;

verus! {

/// One open offer: `maker` gives the vault's `mint_a` tokens for `receive`
/// units of `mint_b`.
#[derive(Clone, Copy, Debug, PartialEq, Eq)]
pub struct Escrow {
    /// Chosen by the maker; with the maker's key it derives the record's address.
    pub seed: u64,
    pub maker: Key,
    pub mint_a: Key,
    pub mint_b: Key,
    /// Units of `mint_b` the maker asks for.
    pub receive: u64,
    /// The bump seed of the record's address.
    pub bump: u8,
}

/// The account that holds an escrow record; `record` is `None` once the
/// record has been closed (or where none was ever made).
#[derive(Clone, Copy, Debug, PartialEq, Eq)]
pub struct EscrowAccount {
    pub key: Key,
    pub owner: Key,
    pub record: Option<Escrow>,
}

/// A token mint.
#[derive(Clone, Copy, Debug, PartialEq, Eq)]
pub struct MintState {
    pub key: Key,
    /// The token program that owns the mint.
    pub owner: Key,
    pub decimals: u8,
}

/// A token account: a balance of one mint held for one authority.
#[derive(Clone, Copy, Debug, PartialEq, Eq)]
pub struct TokenAccountState {
    pub key: Key,
    /// The token program that owns the account.
    pub owner: Key,
    pub mint: Key,
    pub authority: Key,
    pub amount: u64,
}

/// `t` is the associated token account of `authority` for `mint`, and its
/// recorded mint and authority say so.
pub open spec fn is_token_account_of(t: TokenAccountState, mint: Key, authority: Key, token_program: Key, ata_program: Key) -> bool {
    &&& t.mint@ == mint@
    &&& t.authority@ == authority@
    &&& is_associated(t.key@, authority@, mint@, token_program@, ata_program@)
}

/// Checks that `t` is the associated token account of `authority` for `mint`.
pub fn token_account_of(t: &TokenAccountState, mint: &Key, authority: &Key, token_program: &Key, ata_program: &Key) -> (r: bool)
    ensures
        r == is_token_account_of(*t, *mint, *authority, *token_program, *ata_program),
{
    t.mint.same_as(mint) && t.authority.same_as(authority) && verify_associated_address(&t.key, authority, mint, token_program, ata_program)
}

} // verus!
