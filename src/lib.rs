//! Escrow and vault custody protocols: derived custody addresses, the checks
//! that guard every instruction, and the transfers each instruction makes.
pub mod account;
pub mod address;
pub mod deposit;
pub mod error;
pub mod refund;
pub mod state;
pub mod take;
pub mod transfer;
pub mod withdraw;

use crate::error::ProtocolError;
use vstd::prelude::*;

verus! {

/// The accounts of the escrow program's no-op initialisation: none.
pub struct Initialize {}

/// Initialisation of the escrow program: it holds no state, so this always
/// succeeds and changes nothing.
pub fn initialize(ctx: &Initialize) -> (r: Result<(), ProtocolError>)
    ensures
        r is Ok,
{
    Ok(())
}

} // verus!
