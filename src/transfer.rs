//! The token-ledger calls an escrow instruction makes: checked transfers and
//! account closes, each with the authority that signs it.
use crate::address::{escrow_seeds, with_bump, DerivedSigner, Key};
use crate::state::Escrow;
use vstd::prelude::*;

verus! {

/// Who authorises a token movement.
pub enum Authority {
    /// The holder signs the transaction itself.
    Direct(Key),
    /// A derived address signs through its seeds.
    Derived(DerivedSigner),
}

/// A checked transfer of `amount` units of `mint`, stated with the mint's
/// `decimals`, from token account `from` to token account `to`.
pub struct TokenTransfer {
    pub from: Key,
    pub to: Key,
    pub mint: Key,
    pub decimals: u8,
    pub amount: u64,
    pub authority: Authority,
}

/// Closes the emptied token account `account`, sending its storage deposit
/// to `destination`; the custody address signs.
pub struct CloseAccount {
    pub account: Key,
    pub destination: Key,
    pub authority: DerivedSigner,
}

/// `s` signs for the escrow record at `escrow` through the record's own seeds.
pub open spec fn signs_for_escrow(s: DerivedSigner, escrow: Seq<u8>, rec: Escrow, program: Seq<u8>) -> bool {
    &&& s.wf()
    &&& s.spec_address() == escrow
    &&& s.spec_program() == program
    &&& s.spec_seeds() == with_bump(escrow_seeds(rec.maker@, rec.seed), rec.bump)
}

/// `t` moves `amount` of `mint` (with `decimals`) from `from` to `to`.
pub open spec fn moves(t: TokenTransfer, from: Key, to: Key, mint: Key, decimals: u8, amount: u64) -> bool {
    t.from == from && t.to == to && t.mint == mint && t.decimals == decimals && t.amount == amount
}

/// The balance of token account `key`, holding `balance`, once `t` has
/// been applied.
pub open spec fn tokens_after(key: Seq<u8>, balance: int, t: TokenTransfer) -> int {
    balance - (if key == t.from@ {
        t.amount as int
    } else {
        0
    }) + (if key == t.to@ {
        t.amount as int
    } else {
        0
    })
}

} // verus!
