//! Take: a counterparty fills an open offer.
use crate::account::AccountState;
use crate::address::{derives, escrow_seeds, escrow_signer, system_program_id, system_program_key, Key};
use crate::error::{ProtocolError, RecordField};
use crate::refund::{refund_check, Refund};
use crate::state::{is_token_account_of, token_account_of, Escrow, EscrowAccount, MintState, TokenAccountState};
use crate::transfer::{moves, signs_for_escrow, tokens_after, Authority, CloseAccount, TokenTransfer};
use vstd::prelude::*;

verus! {

/// The accounts of a take.
#[derive(Clone, Copy, Debug, PartialEq, Eq)]
pub struct Take {
    pub taker: AccountState,
    pub maker: AccountState,
    pub escrow: EscrowAccount,
    pub mint_a: MintState,
    pub mint_b: MintState,
    /// The custody token account of the record.
    pub vault: TokenAccountState,
    /// The taker's account of `mint_a`, which receives the vault's balance.
    pub taker_ata_a: TokenAccountState,
    /// The taker's account of `mint_b`, which pays the maker.
    pub taker_ata_b: TokenAccountState,
    /// The maker's account of `mint_b`, which is paid.
    pub maker_ata_b: TokenAccountState,
    pub token_program: Key,
    /// The associated-token program, which derives token account addresses.
    pub associated_token_program: Key,
    /// The escrow program's own id.
    pub program_id: Key,
}

/// The outcome of checking the accounts of a take.
pub open spec fn take_check(c: Take) -> Result<(), ProtocolError> {
    if !c.taker.is_signer {
        Err(ProtocolError::MissingSigner)
    } else {
        match c.escrow.record {
            None => Err(ProtocolError::AccountNotInitialized),
            Some(rec) => if c.escrow.owner@ != c.program_id@ || c.maker.owner@ != system_program_key() {
                Err(ProtocolError::WrongAccountOwner)
            } else if rec.maker@ != c.maker.key@ {
                Err(ProtocolError::IdentityMismatch(RecordField::Originator))
            } else if rec.mint_a@ != c.mint_a.key@ {
                Err(ProtocolError::IdentityMismatch(RecordField::AssetA))
            } else if rec.mint_b@ != c.mint_b.key@ {
                Err(ProtocolError::IdentityMismatch(RecordField::AssetB))
            } else if !derives(c.escrow.key@, escrow_seeds(c.maker.key@, rec.seed), rec.bump, c.program_id@) {
                Err(ProtocolError::AddressDerivationMismatch)
            } else if c.mint_a.owner@ != c.token_program@ || c.mint_b.owner@ != c.token_program@
                || c.vault.owner@ != c.token_program@ || c.taker_ata_a.owner@ != c.token_program@
                || c.taker_ata_b.owner@ != c.token_program@ || c.maker_ata_b.owner@ != c.token_program@ {
                Err(ProtocolError::WrongAccountOwner)
            } else if !is_token_account_of(c.vault, c.mint_a.key, c.escrow.key, c.token_program, c.associated_token_program)
                || !is_token_account_of(c.taker_ata_a, c.mint_a.key, c.taker.key, c.token_program, c.associated_token_program)
                || !is_token_account_of(c.taker_ata_b, c.mint_b.key, c.taker.key, c.token_program, c.associated_token_program)
                || !is_token_account_of(c.maker_ata_b, c.mint_b.key, c.maker.key, c.token_program, c.associated_token_program) {
                Err(ProtocolError::TokenAccountMismatch)
            } else if c.taker_ata_b.amount < rec.receive {
                Err(ProtocolError::InsufficientBalance)
            } else if c.maker_ata_b.amount + rec.receive > u64::MAX || c.taker_ata_a.amount + c.vault.amount > u64::MAX {
                Err(ProtocolError::ArithmeticOverflow)
            } else {
                Ok(())
            },
        }
    }
}

/// What a take asks of the token ledger, in order: pay the maker, release
/// the vault to the taker, close the vault, and close the record, sending
/// its deposit to `close_escrow_to`.
pub struct TakePlan {
    pub pay_maker: TokenTransfer,
    pub release: TokenTransfer,
    pub close_vault: CloseAccount,
    pub close_escrow_to: Key,
}

/// The taker pays the maker `rec.receive` of `mint_b`, signing directly.
pub open spec fn pays_maker(t: TokenTransfer, c: Take, rec: Escrow) -> bool {
    moves(t, c.taker_ata_b.key, c.maker_ata_b.key, c.mint_b.key, c.mint_b.decimals, rec.receive)
        && t.authority == Authority::Direct(c.taker.key)
}

/// The vault's whole balance of `mint_a` goes to the taker, signed for by
/// the record's address.
pub open spec fn releases_vault(t: TokenTransfer, c: Take, rec: Escrow) -> bool {
    moves(t, c.vault.key, c.taker_ata_a.key, c.mint_a.key, c.mint_a.decimals, c.vault.amount)
        && match t.authority {
        Authority::Derived(s) => signs_for_escrow(s, c.escrow.key@, rec, c.program_id@),
        Authority::Direct(_) => false,
    }
}

/// Checks a take and closes the record in `ctx`; returns the token calls
/// that carry it out.
pub fn handler(ctx: &mut Take) -> (r: Result<TakePlan, ProtocolError>)
    ensures
        match r {
            Ok(p) => {
                let c = *old(ctx);
                let rec = c.escrow.record->Some_0;
                &&& take_check(c) is Ok
                &&& *final(ctx) == (Take { escrow: EscrowAccount { record: None, ..c.escrow }, ..c })
                &&& pays_maker(p.pay_maker, c, rec)
                &&& releases_vault(p.release, c, rec)
                &&& p.close_vault.account == c.vault.key
                &&& p.close_vault.destination == c.maker.key
                &&& signs_for_escrow(p.close_vault.authority, c.escrow.key@, rec, c.program_id@)
                &&& p.close_escrow_to == c.maker.key
            },
            Err(e) => take_check(*old(ctx)) == Err::<(), ProtocolError>(e) && *final(ctx) == *old(ctx),
        },
{
    if !ctx.taker.is_signer {
        return Err(ProtocolError::MissingSigner);
    }
    let rec = match ctx.escrow.record {
        Some(rec) => rec,
        None => {
            return Err(ProtocolError::AccountNotInitialized);
        },
    };
    if !ctx.escrow.owner.same_as(&ctx.program_id) || !ctx.maker.owner.same_as(&system_program_id()) {
        return Err(ProtocolError::WrongAccountOwner);
    }
    if !rec.maker.same_as(&ctx.maker.key) {
        return Err(ProtocolError::IdentityMismatch(RecordField::Originator));
    }
    if !rec.mint_a.same_as(&ctx.mint_a.key) {
        return Err(ProtocolError::IdentityMismatch(RecordField::AssetA));
    }
    if !rec.mint_b.same_as(&ctx.mint_b.key) {
        return Err(ProtocolError::IdentityMismatch(RecordField::AssetB));
    }
    let signer = match escrow_signer(&ctx.escrow.key, &ctx.maker.key, rec.seed, rec.bump, &ctx.program_id) {
        Some(s) => s,
        None => {
            return Err(ProtocolError::AddressDerivationMismatch);
        },
    };
    let tp = ctx.token_program;
    if !ctx.mint_a.owner.same_as(&tp) || !ctx.mint_b.owner.same_as(&tp) || !ctx.vault.owner.same_as(&tp)
        || !ctx.taker_ata_a.owner.same_as(&tp) || !ctx.taker_ata_b.owner.same_as(&tp)
        || !ctx.maker_ata_b.owner.same_as(&tp) {
        return Err(ProtocolError::WrongAccountOwner);
    }
    let ata = ctx.associated_token_program;
    if !token_account_of(&ctx.vault, &ctx.mint_a.key, &ctx.escrow.key, &tp, &ata)
        || !token_account_of(&ctx.taker_ata_a, &ctx.mint_a.key, &ctx.taker.key, &tp, &ata)
        || !token_account_of(&ctx.taker_ata_b, &ctx.mint_b.key, &ctx.taker.key, &tp, &ata)
        || !token_account_of(&ctx.maker_ata_b, &ctx.mint_b.key, &ctx.maker.key, &tp, &ata) {
        return Err(ProtocolError::TokenAccountMismatch);
    }
    if ctx.taker_ata_b.amount < rec.receive {
        return Err(ProtocolError::InsufficientBalance);
    }
    if ctx.maker_ata_b.amount > u64::MAX - rec.receive || ctx.taker_ata_a.amount > u64::MAX - ctx.vault.amount {
        return Err(ProtocolError::ArithmeticOverflow);
    }
    let pay_maker = TokenTransfer {
        from: ctx.taker_ata_b.key,
        to: ctx.maker_ata_b.key,
        mint: ctx.mint_b.key,
        decimals: ctx.mint_b.decimals,
        amount: rec.receive,
        authority: Authority::Direct(ctx.taker.key),
    };
    let release = TokenTransfer {
        from: ctx.vault.key,
        to: ctx.taker_ata_a.key,
        mint: ctx.mint_a.key,
        decimals: ctx.mint_a.decimals,
        amount: ctx.vault.amount,
        authority: Authority::Derived(signer.duplicate()),
    };
    let close_vault = CloseAccount { account: ctx.vault.key, destination: ctx.maker.key, authority: signer };
    ctx.escrow.record = None;
    Ok(TakePlan { pay_maker, release, close_vault, close_escrow_to: ctx.maker.key })
}

/// A record is closed at most once: once a take or a refund has closed it,
/// every take and every refund presented with that record account is refused.
pub proof fn lemma_closed_record_refuses(escrow: EscrowAccount, t: Take, r: Refund)
    requires
        escrow.record is None,
        t.escrow == escrow,
        r.escrow == escrow,
    ensures
        take_check(t) is Err,
        refund_check(r) is Err,
{
}

/// A take settles both sides at once: once its two transfers are applied,
/// the vault is empty, the taker's `mint_a` account holds the vault's whole
/// former balance on top of its own, and exactly `receive` of `mint_b` has
/// left the taker's account for the maker's.
pub proof fn lemma_take_settles(c: Take, p: TakePlan)
    requires
        c.escrow.record is Some,
        pays_maker(p.pay_maker, c, c.escrow.record->Some_0),
        releases_vault(p.release, c, c.escrow.record->Some_0),
        c.vault.key@ != c.taker_ata_a.key@,
        c.taker_ata_b.key@ != c.maker_ata_b.key@,
        c.vault.key@ != c.taker_ata_b.key@ && c.vault.key@ != c.maker_ata_b.key@,
        c.taker_ata_a.key@ != c.taker_ata_b.key@ && c.taker_ata_a.key@ != c.maker_ata_b.key@,
    ensures
        ({
            let rec = c.escrow.record->Some_0;
            let after = |k: Seq<u8>, b: int| tokens_after(k, tokens_after(k, b, p.pay_maker), p.release);
            &&& after(c.vault.key@, c.vault.amount as int) == 0
            &&& after(c.taker_ata_a.key@, c.taker_ata_a.amount as int) == c.taker_ata_a.amount + c.vault.amount
            &&& after(c.taker_ata_b.key@, c.taker_ata_b.amount as int) == c.taker_ata_b.amount - rec.receive
            &&& after(c.maker_ata_b.key@, c.maker_ata_b.amount as int) == c.maker_ata_b.amount + rec.receive
        }),
{
}

} // verus!
