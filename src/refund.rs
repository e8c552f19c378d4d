//! Refund: the maker cancels an open offer and takes everything back.
use crate::account::AccountState;
use crate::address::{derives, escrow_seeds, escrow_signer, Key};
use crate::error::{ProtocolError, RecordField};
use crate::state::{is_token_account_of, token_account_of, Escrow, EscrowAccount, MintState, TokenAccountState};
use crate::transfer::{moves, signs_for_escrow, tokens_after, Authority, CloseAccount, TokenTransfer};
use vstd::prelude::*;

verus! {

/// The accounts of a refund.
#[derive(Clone, Copy, Debug, PartialEq, Eq)]
pub struct Refund {
    pub maker: AccountState,
    pub escrow: EscrowAccount,
    pub mint_a: MintState,
    /// The custody token account of the record.
    pub vault: TokenAccountState,
    /// The maker's account of `mint_a`.
    pub maker_ata_a: TokenAccountState,
    pub token_program: Key,
    /// The associated-token program, which derives token account addresses.
    pub associated_token_program: Key,
    /// The escrow program's own id.
    pub program_id: Key,
}

/// The outcome of checking the accounts of a refund.
pub open spec fn refund_check(c: Refund) -> Result<(), ProtocolError> {
    if !c.maker.is_signer {
        Err(ProtocolError::MissingSigner)
    } else {
        match c.escrow.record {
            None => Err(ProtocolError::AccountNotInitialized),
            Some(rec) => if c.escrow.owner@ != c.program_id@ {
                Err(ProtocolError::WrongAccountOwner)
            } else if rec.maker@ != c.maker.key@ {
                Err(ProtocolError::IdentityMismatch(RecordField::Originator))
            } else if rec.mint_a@ != c.mint_a.key@ {
                Err(ProtocolError::IdentityMismatch(RecordField::AssetA))
            } else if !derives(c.escrow.key@, escrow_seeds(c.maker.key@, rec.seed), rec.bump, c.program_id@) {
                Err(ProtocolError::AddressDerivationMismatch)
            } else if c.mint_a.owner@ != c.token_program@ || c.vault.owner@ != c.token_program@
                || c.maker_ata_a.owner@ != c.token_program@ {
                Err(ProtocolError::WrongAccountOwner)
            } else if !is_token_account_of(c.vault, c.mint_a.key, c.escrow.key, c.token_program, c.associated_token_program)
                || !is_token_account_of(c.maker_ata_a, c.mint_a.key, c.maker.key, c.token_program, c.associated_token_program) {
                Err(ProtocolError::TokenAccountMismatch)
            } else if c.vault.amount > 0 && c.maker_ata_a.amount + c.vault.amount > u64::MAX {
                Err(ProtocolError::ArithmeticOverflow)
            } else {
                Ok(())
            },
        }
    }
}

/// `release` returns the vault's whole balance of `mint_a` to the maker's
/// account, signed for by the record's address.
pub open spec fn returns_vault(release: Option<TokenTransfer>, c: Refund, rec: Escrow) -> bool {
    match release {
        Some(t) => moves(t, c.vault.key, c.maker_ata_a.key, c.mint_a.key, c.mint_a.decimals, c.vault.amount)
            && match t.authority {
            Authority::Derived(s) => signs_for_escrow(s, c.escrow.key@, rec, c.program_id@),
            Authority::Direct(_) => false,
        },
        None => false,
    }
}

/// What a refund asks of the token ledger, in order: return the vault's
/// balance to the maker (only where there is one), close the vault, and
/// close the record, sending its deposit to `close_escrow_to`.
pub struct RefundPlan {
    pub release: Option<TokenTransfer>,
    pub close_vault: CloseAccount,
    pub close_escrow_to: Key,
}

/// Checks a refund and closes the record in `ctx`; returns the token calls
/// that carry it out.
pub fn handler(ctx: &mut Refund) -> (r: Result<RefundPlan, ProtocolError>)
    ensures
        match r {
            Ok(p) => {
                let c = *old(ctx);
                let rec = c.escrow.record->Some_0;
                &&& refund_check(c) is Ok
                &&& *final(ctx) == (Refund { escrow: EscrowAccount { record: None, ..c.escrow }, ..c })
                &&& c.vault.amount > 0 ==> returns_vault(p.release, c, rec)
                &&& c.vault.amount == 0 ==> p.release is None
                &&& p.close_vault.account == c.vault.key
                &&& p.close_vault.destination == c.maker.key
                &&& signs_for_escrow(p.close_vault.authority, c.escrow.key@, rec, c.program_id@)
                &&& p.close_escrow_to == c.maker.key
            },
            Err(e) => refund_check(*old(ctx)) == Err::<(), ProtocolError>(e) && *final(ctx) == *old(ctx),
        },
{
    if !ctx.maker.is_signer {
        return Err(ProtocolError::MissingSigner);
    }
    let rec = match ctx.escrow.record {
        Some(rec) => rec,
        None => {
            return Err(ProtocolError::AccountNotInitialized);
        },
    };
    if !ctx.escrow.owner.same_as(&ctx.program_id) {
        return Err(ProtocolError::WrongAccountOwner);
    }
    if !rec.maker.same_as(&ctx.maker.key) {
        return Err(ProtocolError::IdentityMismatch(RecordField::Originator));
    }
    if !rec.mint_a.same_as(&ctx.mint_a.key) {
        return Err(ProtocolError::IdentityMismatch(RecordField::AssetA));
    }
    let signer = match escrow_signer(&ctx.escrow.key, &ctx.maker.key, rec.seed, rec.bump, &ctx.program_id) {
        Some(s) => s,
        None => {
            return Err(ProtocolError::AddressDerivationMismatch);
        },
    };
    if !ctx.mint_a.owner.same_as(&ctx.token_program) || !ctx.vault.owner.same_as(&ctx.token_program)
        || !ctx.maker_ata_a.owner.same_as(&ctx.token_program) {
        return Err(ProtocolError::WrongAccountOwner);
    }
    if !token_account_of(&ctx.vault, &ctx.mint_a.key, &ctx.escrow.key, &ctx.token_program, &ctx.associated_token_program)
        || !token_account_of(&ctx.maker_ata_a, &ctx.mint_a.key, &ctx.maker.key, &ctx.token_program, &ctx.associated_token_program) {
        return Err(ProtocolError::TokenAccountMismatch);
    }
    if ctx.vault.amount > 0 && ctx.maker_ata_a.amount > u64::MAX - ctx.vault.amount {
        return Err(ProtocolError::ArithmeticOverflow);
    }
    let release = if ctx.vault.amount > 0 {
        Some(
            TokenTransfer {
                from: ctx.vault.key,
                to: ctx.maker_ata_a.key,
                mint: ctx.mint_a.key,
                decimals: ctx.mint_a.decimals,
                amount: ctx.vault.amount,
                authority: Authority::Derived(signer.duplicate()),
            },
        )
    } else {
        None
    };
    let close_vault = CloseAccount { account: ctx.vault.key, destination: ctx.maker.key, authority: signer };
    ctx.escrow.record = None;
    Ok(RefundPlan { release, close_vault, close_escrow_to: ctx.maker.key })
}

/// The balance of token account `key`, holding `balance`, once a refund's
/// optional release has been applied.
pub open spec fn after_release(key: Seq<u8>, balance: int, release: Option<TokenTransfer>) -> int {
    match release {
        Some(t) => tokens_after(key, balance, t),
        None => balance,
    }
}

/// A refund gives the maker back the whole custody balance: once its
/// release is applied, the vault is empty and the maker's `mint_a` account
/// holds its own balance plus the vault's former one.
pub proof fn lemma_refund_returns_all(c: Refund, p: RefundPlan)
    requires
        c.escrow.record is Some,
        c.vault.amount > 0 ==> returns_vault(p.release, c, c.escrow.record->Some_0),
        c.vault.amount == 0 ==> p.release is None,
        c.vault.key@ != c.maker_ata_a.key@,
    ensures
        after_release(c.vault.key@, c.vault.amount as int, p.release) == 0,
        after_release(c.maker_ata_a.key@, c.maker_ata_a.amount as int, p.release) == c.maker_ata_a.amount
            + c.vault.amount,
{
}

} // verus!
