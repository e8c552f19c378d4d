use blueshift_custody::account::AccountState;
use blueshift_custody::address::{derive_associated_address, derive_escrow_address, u64_le_bytes, verify_escrow_address, Key};
use blueshift_custody::error::{ProtocolError, RecordField};
use blueshift_custody::refund::{self, Refund};
use blueshift_custody::state::{Escrow, EscrowAccount, MintState, TokenAccountState};
use blueshift_custody::take::{self, Take};
use blueshift_custody::transfer::Authority;
use blueshift_custody::{initialize, Initialize};

fn key(b: u8) -> Key {
    Key { bytes: [b; 32] }
}

const PROGRAM: u8 = 9;
const TOKEN_PROGRAM: u8 = 6;
const ATA_PROGRAM: u8 = 5;
const MAKER: u8 = 1;
const TAKER: u8 = 2;
const MINT_X: u8 = 3;
const MINT_Y: u8 = 4;

fn system() -> Key {
    Key { bytes: [0; 32] }
}

fn ata(authority: Key, mint: u8) -> Key {
    derive_associated_address(&authority, &key(mint), &key(TOKEN_PROGRAM), &key(ATA_PROGRAM)).unwrap().0
}

fn token_account(mint: u8, authority: Key, amount: u64) -> TokenAccountState {
    TokenAccountState { key: ata(authority, mint), owner: key(TOKEN_PROGRAM), mint: key(mint), authority, amount }
}

fn open_escrow(seed: u64) -> (EscrowAccount, Escrow) {
    let (escrow_key, bump) = derive_escrow_address(&key(MAKER), seed, &key(PROGRAM)).unwrap();
    let rec = Escrow {
        seed,
        maker: key(MAKER),
        mint_a: key(MINT_X),
        mint_b: key(MINT_Y),
        receive: 40,
        bump,
    };
    (EscrowAccount { key: escrow_key, owner: key(PROGRAM), record: Some(rec) }, rec)
}

fn refund_ctx() -> Refund {
    let (escrow, _) = open_escrow(7);
    Refund {
        maker: AccountState { key: key(MAKER), owner: system(), is_signer: true, lamports: 1_000 },
        escrow,
        mint_a: MintState { key: key(MINT_X), owner: key(TOKEN_PROGRAM), decimals: 6 },
        vault: token_account(MINT_X, escrow.key, 100),
        maker_ata_a: token_account(MINT_X, key(MAKER), 5),
        token_program: key(TOKEN_PROGRAM),
        associated_token_program: key(ATA_PROGRAM),
        program_id: key(PROGRAM),
    }
}

fn take_ctx() -> Take {
    let (escrow, _) = open_escrow(7);
    Take {
        taker: AccountState { key: key(TAKER), owner: system(), is_signer: true, lamports: 1_000 },
        maker: AccountState { key: key(MAKER), owner: system(), is_signer: false, lamports: 1_000 },
        escrow,
        mint_a: MintState { key: key(MINT_X), owner: key(TOKEN_PROGRAM), decimals: 6 },
        mint_b: MintState { key: key(MINT_Y), owner: key(TOKEN_PROGRAM), decimals: 9 },
        vault: token_account(MINT_X, escrow.key, 100),
        taker_ata_a: token_account(MINT_X, key(TAKER), 0),
        taker_ata_b: token_account(MINT_Y, key(TAKER), 50),
        maker_ata_b: token_account(MINT_Y, key(MAKER), 0),
        token_program: key(TOKEN_PROGRAM),
        associated_token_program: key(ATA_PROGRAM),
        program_id: key(PROGRAM),
    }
}

#[test]
fn derivation_is_deterministic() {
    let a = derive_escrow_address(&key(MAKER), 7, &key(PROGRAM)).unwrap();
    let b = derive_escrow_address(&key(MAKER), 7, &key(PROGRAM)).unwrap();
    assert_eq!(a, b);
    assert_ne!(a.0, key(MAKER));
    assert_ne!(a.0, key(PROGRAM));
    assert!(verify_escrow_address(&a.0, &key(MAKER), 7, a.1, &key(PROGRAM)));
}

#[test]
fn derivation_depends_on_seed_and_maker() {
    let a = derive_escrow_address(&key(MAKER), 7, &key(PROGRAM)).unwrap();
    let b = derive_escrow_address(&key(MAKER), 8, &key(PROGRAM)).unwrap();
    let c = derive_escrow_address(&key(TAKER), 7, &key(PROGRAM)).unwrap();
    assert_ne!(a.0, b.0);
    assert_ne!(a.0, c.0);
    assert!(!verify_escrow_address(&a.0, &key(MAKER), 8, a.1, &key(PROGRAM)));
    assert!(!verify_escrow_address(&b.0, &key(MAKER), 7, b.1, &key(PROGRAM)));
}

#[test]
fn seed_bytes_are_little_endian() {
    assert_eq!(u64_le_bytes(0x0102030405060708), vec![8, 7, 6, 5, 4, 3, 2, 1]);
    assert_eq!(u64_le_bytes(7), vec![7, 0, 0, 0, 0, 0, 0, 0]);
}

#[test]
fn initialize_succeeds() {
    assert_eq!(initialize(&Initialize {}), Ok(()));
}

#[test]
fn refund_returns_everything_to_maker() {
    let mut ctx = refund_ctx();
    let before = ctx;
    let plan = refund::handler(&mut ctx).unwrap();
    let release = plan.release.unwrap();
    assert_eq!(release.from, before.vault.key);
    assert_eq!(release.to, before.maker_ata_a.key);
    assert_eq!(release.mint, key(MINT_X));
    assert_eq!(release.decimals, 6);
    assert_eq!(release.amount, 100);
    assert_eq!(before.maker_ata_a.amount + release.amount, 105);
    match &release.authority {
        Authority::Derived(s) => {
            assert_eq!(s.address(), before.escrow.key);
            let rec = before.escrow.record.unwrap();
            let seeds = s.seeds();
            assert_eq!(seeds.len(), 4);
            assert_eq!(seeds[0], b"escrow".to_vec());
            assert_eq!(seeds[1], vec![MAKER; 32]);
            assert_eq!(seeds[2], vec![7, 0, 0, 0, 0, 0, 0, 0]);
            assert_eq!(seeds[3], vec![rec.bump]);
        }
        Authority::Direct(_) => panic!("custody must sign through its seeds"),
    }
    assert_eq!(plan.close_vault.account, before.vault.key);
    assert_eq!(plan.close_vault.destination, key(MAKER));
    assert_eq!(plan.close_escrow_to, key(MAKER));
    assert_eq!(ctx.escrow.record, None);
}

#[test]
fn refund_of_empty_vault_skips_transfer() {
    let mut ctx = refund_ctx();
    ctx.vault.amount = 0;
    let plan = refund::handler(&mut ctx).unwrap();
    assert!(plan.release.is_none());
    assert_eq!(plan.close_vault.destination, key(MAKER));
}

#[test]
fn refund_then_anything_fails() {
    let mut ctx = refund_ctx();
    assert!(refund::handler(&mut ctx).is_ok());
    let after = ctx;
    assert_eq!(refund::handler(&mut ctx).err(), Some(ProtocolError::AccountNotInitialized));
    assert_eq!(ctx, after);
    let mut t = take_ctx();
    t.escrow = ctx.escrow;
    assert_eq!(take::handler(&mut t).err(), Some(ProtocolError::AccountNotInitialized));
}

#[test]
fn refund_rejections() {
    let mut c = refund_ctx();
    c.maker.is_signer = false;
    assert_eq!(refund::handler(&mut c).err(), Some(ProtocolError::MissingSigner));

    let mut c = refund_ctx();
    c.maker.key = key(TAKER);
    c.maker_ata_a.authority = key(TAKER);
    assert_eq!(
        refund::handler(&mut c).err(),
        Some(ProtocolError::IdentityMismatch(RecordField::Originator))
    );

    let mut c = refund_ctx();
    c.mint_a.key = key(MINT_Y);
    assert_eq!(refund::handler(&mut c).err(), Some(ProtocolError::IdentityMismatch(RecordField::AssetA)));

    let mut c = refund_ctx();
    c.escrow.owner = key(TOKEN_PROGRAM);
    assert_eq!(refund::handler(&mut c).err(), Some(ProtocolError::WrongAccountOwner));

    let mut c = refund_ctx();
    let mut rec = c.escrow.record.unwrap();
    rec.bump = rec.bump.wrapping_sub(1);
    c.escrow.record = Some(rec);
    assert_eq!(refund::handler(&mut c).err(), Some(ProtocolError::AddressDerivationMismatch));

    let mut c = refund_ctx();
    c.vault.authority = key(MAKER);
    let before = c;
    assert_eq!(refund::handler(&mut c).err(), Some(ProtocolError::TokenAccountMismatch));
    assert_eq!(c, before);

    let mut c = refund_ctx();
    c.maker_ata_a.amount = u64::MAX;
    assert_eq!(refund::handler(&mut c).err(), Some(ProtocolError::ArithmeticOverflow));
}

#[test]
fn take_swaps_both_assets() {
    let mut ctx = take_ctx();
    let before = ctx;
    let plan = take::handler(&mut ctx).unwrap();
    assert_eq!(plan.pay_maker.from, before.taker_ata_b.key);
    assert_eq!(plan.pay_maker.to, before.maker_ata_b.key);
    assert_eq!(plan.pay_maker.mint, key(MINT_Y));
    assert_eq!(plan.pay_maker.decimals, 9);
    assert_eq!(plan.pay_maker.amount, 40);
    assert!(matches!(plan.pay_maker.authority, Authority::Direct(k) if k == key(TAKER)));
    assert_eq!(plan.release.from, before.vault.key);
    assert_eq!(plan.release.to, before.taker_ata_a.key);
    assert_eq!(plan.release.mint, key(MINT_X));
    assert_eq!(plan.release.decimals, 6);
    assert_eq!(plan.release.amount, 100);
    assert!(matches!(&plan.release.authority, Authority::Derived(s) if s.address() == before.escrow.key));
    // taker gains 100 X and pays 40 Y; maker gains 40 Y
    assert_eq!(before.taker_ata_a.amount + plan.release.amount, 100);
    assert_eq!(before.taker_ata_b.amount - plan.pay_maker.amount, 10);
    assert_eq!(before.maker_ata_b.amount + plan.pay_maker.amount, 40);
    assert_eq!(plan.close_vault.account, before.vault.key);
    assert_eq!(plan.close_vault.destination, key(MAKER));
    assert_eq!(plan.close_escrow_to, key(MAKER));
    assert_eq!(ctx.escrow.record, None);
}

#[test]
fn take_then_anything_fails() {
    let mut ctx = take_ctx();
    assert!(take::handler(&mut ctx).is_ok());
    assert_eq!(take::handler(&mut ctx).err(), Some(ProtocolError::AccountNotInitialized));
    let mut r = refund_ctx();
    r.escrow = ctx.escrow;
    assert_eq!(refund::handler(&mut r).err(), Some(ProtocolError::AccountNotInitialized));
}

#[test]
fn token_accounts_must_be_associated() {
    let a = ata(key(MAKER), MINT_X);
    assert_eq!(a, ata(key(MAKER), MINT_X));
    assert_ne!(a, ata(key(MAKER), MINT_Y));
    assert_ne!(a, ata(key(TAKER), MINT_X));
    assert_ne!(a, key(MAKER));

    let mut c = refund_ctx();
    c.maker_ata_a.key = key(40);
    assert_eq!(refund::handler(&mut c).err(), Some(ProtocolError::TokenAccountMismatch));

    let mut c = take_ctx();
    c.vault.key = key(41);
    assert_eq!(take::handler(&mut c).err(), Some(ProtocolError::TokenAccountMismatch));

    let mut c = take_ctx();
    c.associated_token_program = key(42);
    assert_eq!(take::handler(&mut c).err(), Some(ProtocolError::TokenAccountMismatch));
}

#[test]
fn take_rejections() {
    let mut c = take_ctx();
    c.taker.is_signer = false;
    assert_eq!(take::handler(&mut c).err(), Some(ProtocolError::MissingSigner));

    let mut c = take_ctx();
    c.maker.key = key(TAKER);
    assert_eq!(take::handler(&mut c).err(), Some(ProtocolError::IdentityMismatch(RecordField::Originator)));

    let mut c = take_ctx();
    c.mint_a.key = key(30);
    assert_eq!(take::handler(&mut c).err(), Some(ProtocolError::IdentityMismatch(RecordField::AssetA)));

    let mut c = take_ctx();
    c.mint_b.key = key(30);
    assert_eq!(take::handler(&mut c).err(), Some(ProtocolError::IdentityMismatch(RecordField::AssetB)));

    let mut c = take_ctx();
    c.escrow.key = key(31);
    c.vault.authority = key(31);
    assert_eq!(take::handler(&mut c).err(), Some(ProtocolError::AddressDerivationMismatch));

    let mut c = take_ctx();
    c.taker_ata_b.owner = system();
    assert_eq!(take::handler(&mut c).err(), Some(ProtocolError::WrongAccountOwner));

    let mut c = take_ctx();
    c.taker_ata_a.authority = key(MAKER);
    assert_eq!(take::handler(&mut c).err(), Some(ProtocolError::TokenAccountMismatch));

    let mut c = take_ctx();
    c.taker_ata_b.amount = 39;
    let before = c;
    assert_eq!(take::handler(&mut c).err(), Some(ProtocolError::InsufficientBalance));
    assert_eq!(c, before);

    let mut c = take_ctx();
    c.maker_ata_b.amount = u64::MAX - 39;
    assert_eq!(take::handler(&mut c).err(), Some(ProtocolError::ArithmeticOverflow));
}
