//! What the protocols read of a ledger account, and the lamport movement
//! they ask the system program to make.
use crate::address::{DerivedSigner, Key};
use vstd::prelude::*;

verus! {

/// A runtime account as an instruction sees it.
#[derive(Clone, Copy, Debug, PartialEq, Eq)]
pub struct AccountState {
    pub key: Key,
    /// The program that owns the account.
    pub owner: Key,
    pub is_signer: bool,
    pub lamports: u64,
}

/// A system-program transfer of `lamports` from `from` to `to`; with a
/// signer, the derived address `from` authorises it through its seeds,
/// otherwise `from` signs the transaction itself.
pub struct LamportTransfer {
    pub from: Key,
    pub to: Key,
    pub lamports: u64,
    pub signer: Option<DerivedSigner>,
}

/// The balance of account `key`, holding `balance`, once `t` has been applied.
pub open spec fn lamports_after(key: Seq<u8>, balance: int, t: LamportTransfer) -> int {
    balance - (if key == t.from@ {
        t.lamports as int
    } else {
        0
    }) + (if key == t.to@ {
        t.lamports as int
    } else {
        0
    })
}

} // verus!
