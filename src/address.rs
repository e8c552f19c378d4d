//! Custody derivation: program-derived addresses built from a namespace tag,
//! an owner identity and an optional seed, and the capability that lets the
//! protocol sign for such an address.
use anchor_lang::prelude::Pubkey;
use vstd::prelude::*;

verus! {

/// A 32-byte account address.
#[derive(Clone, Copy, Debug, PartialEq, Eq)]
pub struct Key {
    pub bytes: [u8; 32],
}

impl View for Key {
    type V = Seq<u8>;

    open spec fn view(&self) -> Seq<u8> {
        self.bytes@
    }
}

impl Key {
    /// Byte-wise comparison of two addresses.
    pub fn same_as(&self, other: &Key) -> (r: bool)
        ensures
            r == (self@ == other@),
    {
        let mut i: usize = 0;
        while i < 32
            invariant
                i <= 32,
                self@.len() == 32,
                other@.len() == 32,
                forall|j: int| 0 <= j < i ==> self@[j] == other@[j],
            decreases 32 - i,
        {
            if self.bytes[i] != other.bytes[i] {
                return false;
            }
            i = i + 1;
        }
        assert(self@ =~= other@);
        true
    }

    /// The address as an owned byte vector.
    pub fn to_vec(&self) -> (r: Vec<u8>)
        ensures
            r@ == self@,
    {
        let mut r: Vec<u8> = Vec::new();
        let mut i: usize = 0;
        while i < 32
            invariant
                i <= 32,
                self@.len() == 32,
                r@ == self@.subrange(0, i as int),
            decreases 32 - i,
        {
            r.push(self.bytes[i]);
            i = i + 1;
        }
        assert(r@ =~= self@);
        r
    }
}

/// The address of the system program: 32 zero bytes.
pub open spec fn system_program_key() -> Seq<u8> {
    Seq::new(32, |i: int| 0u8)
}

/// "escrow"
pub open spec fn escrow_tag() -> Seq<u8> {
    seq![101u8, 115u8, 99u8, 114u8, 111u8, 119u8]
}

/// "vault"
pub open spec fn vault_tag() -> Seq<u8> {
    seq![118u8, 97u8, 117u8, 108u8, 116u8]
}

/// Little-endian bytes of a 64-bit value.
pub open spec fn le_bytes(x: u64) -> Seq<u8> {
    seq![
        x as u8,
        (x >> 8u64) as u8,
        (x >> 16u64) as u8,
        (x >> 24u64) as u8,
        (x >> 32u64) as u8,
        (x >> 40u64) as u8,
        (x >> 48u64) as u8,
        (x >> 56u64) as u8,
    ]
}

/// The value whose little-endian bytes are the first eight of `s`.
pub open spec fn le_u64(s: Seq<u8>) -> u64 {
    (s[0] as u64) | ((s[1] as u64) << 8u64) | ((s[2] as u64) << 16u64) | ((s[3] as u64)
        << 24u64) | ((s[4] as u64) << 32u64) | ((s[5] as u64) << 40u64) | ((s[6] as u64)
        << 48u64) | ((s[7] as u64) << 56u64)
}

/// Decoding the little-endian bytes of a value gives the value back.
pub proof fn lemma_le_round_trip(x: u64)
    ensures
        le_u64(le_bytes(x)) == x,
{
    let s = le_bytes(x);
    assert(s[0] == x as u8 && s[1] == (x >> 8u64) as u8 && s[2] == (x >> 16u64) as u8 && s[3] == (x
        >> 24u64) as u8);
    assert(s[4] == (x >> 32u64) as u8 && s[5] == (x >> 40u64) as u8 && s[6] == (x >> 48u64) as u8
        && s[7] == (x >> 56u64) as u8);
    assert(((x as u8) as u64) | (((x >> 8u64) as u8 as u64) << 8u64) | (((x >> 16u64) as u8 as u64)
        << 16u64) | (((x >> 24u64) as u8 as u64) << 24u64) | (((x >> 32u64) as u8 as u64) << 32u64)
        | (((x >> 40u64) as u8 as u64) << 40u64) | (((x >> 48u64) as u8 as u64) << 48u64) | (((x
        >> 56u64) as u8 as u64) << 56u64) == x) by (bit_vector);
}

/// Seeds of the escrow record of `maker` with `seed`.
pub open spec fn escrow_seeds(maker: Seq<u8>, seed: u64) -> Seq<Seq<u8>> {
    seq![escrow_tag(), maker, le_bytes(seed)]
}

/// Seeds of the single vault of `owner`.
pub open spec fn vault_seeds(owner: Seq<u8>) -> Seq<Seq<u8>> {
    seq![vault_tag(), owner]
}

/// Seeds of the associated token account of `wallet` for `mint` under
/// `token_program`.
pub open spec fn associated_seeds(wallet: Seq<u8>, token_program: Seq<u8>, mint: Seq<u8>) -> Seq<Seq<u8>> {
    seq![wallet, token_program, mint]
}

/// `account` is the associated token account of `wallet` for `mint`, as the
/// associated-token program `ata_program` derives it.
pub open spec fn is_associated(account: Seq<u8>, wallet: Seq<u8>, mint: Seq<u8>, token_program: Seq<u8>, ata_program: Seq<u8>) -> bool {
    found_address(associated_seeds(wallet, token_program, mint), ata_program) matches Some((k, _))
        && k == account
}

/// Seeds followed by the one-byte bump seed.
pub open spec fn with_bump(seeds: Seq<Seq<u8>>, bump: u8) -> Seq<Seq<u8>> {
    seeds.push(seq![bump])
}

pub open spec fn seeds_view(seeds: Seq<Vec<u8>>) -> Seq<Seq<u8>> {
    seeds.map_values(|s: Vec<u8>| s@)
}

pub open spec fn pair_view(r: Option<(Key, u8)>) -> Option<(Seq<u8>, u8)> {
    match r {
        Some((k, b)) => Some((k@, b)),
        None => None,
    }
}

/// The address, if any, that `seeds` (bump included) derive under `program`.
pub uninterp spec fn created_address(seeds: Seq<Seq<u8>>, program: Seq<u8>) -> Option<Seq<u8>>;

/// The first address and bump, from 255 down, that `seeds` derive under
/// `program`, if any.
pub uninterp spec fn found_address(seeds: Seq<Seq<u8>>, program: Seq<u8>) -> Option<(Seq<u8>, u8)>;

/// The bump found for the vault of `owner` under `program`.
pub open spec fn vault_bump(owner: Seq<u8>, program: Seq<u8>) -> u8 {
    match found_address(vault_seeds(owner), program) {
        Some((_, b)) => b,
        None => 0,
    }
}

/// `presented` is the address derived from `seeds` with `bump` under `program`.
pub open spec fn derives(presented: Seq<u8>, seeds: Seq<Seq<u8>>, bump: u8, program: Seq<u8>) -> bool {
    created_address(with_bump(seeds, bump), program) == Some(presented)
}

/// Relies on `Pubkey::create_program_address` (solana-pubkey, through
/// anchor-lang): the derived address depends on the seeds and the program id
/// alone; every error it reports comes back as `None`.
#[verifier::external_body]
fn create_address(seeds: &Vec<Vec<u8>>, program: &Key) -> (r: Option<Key>)
    ensures
        match r {
            Some(k) => created_address(seeds_view(seeds@), program@) == Some(k@),
            None => created_address(seeds_view(seeds@), program@) is None,
        },
{
    let refs: Vec<&[u8]> = seeds.iter().map(|s| s.as_slice()).collect();
    Pubkey::create_program_address(&refs, &Pubkey::new_from_array(program.bytes)).ok().map(
        |a| Key { bytes: a.to_bytes() },
    )
}

/// Relies on `Pubkey::try_find_program_address` (solana-pubkey, through
/// anchor-lang): the search depends on the seeds and the program id alone, and
/// the bump it returns is one with which `create_program_address` yields the
/// returned address.
#[verifier::external_body]
fn find_address(seeds: &Vec<Vec<u8>>, program: &Key) -> (r: Option<(Key, u8)>)
    ensures
        pair_view(r) == found_address(seeds_view(seeds@), program@),
        match r {
            Some((k, b)) => created_address(with_bump(seeds_view(seeds@), b), program@) == Some(
                k@,
            ),
            None => true,
        },
{
    let refs: Vec<&[u8]> = seeds.iter().map(|s| s.as_slice()).collect();
    Pubkey::try_find_program_address(&refs, &Pubkey::new_from_array(program.bytes)).map(
        |(a, b)| (Key { bytes: a.to_bytes() }, b),
    )
}

/// Relies on `pinocchio_system::ID`: the system program's address, which is
/// 32 zero bytes.
#[verifier::external_body]
pub(crate) fn system_program_id() -> (r: Key)
    ensures
        r@ == system_program_key(),
{
    Key { bytes: pinocchio_system::ID.to_bytes() }
}

/// Little-endian bytes of `x`.
pub fn u64_le_bytes(x: u64) -> (r: Vec<u8>)
    ensures
        r@ == le_bytes(x),
{
    let r = vec![
        x as u8,
        (x >> 8u64) as u8,
        (x >> 16u64) as u8,
        (x >> 24u64) as u8,
        (x >> 32u64) as u8,
        (x >> 40u64) as u8,
        (x >> 48u64) as u8,
        (x >> 56u64) as u8,
    ];
    assert(r@ =~= le_bytes(x));
    r
}

/// A copy of a byte vector.
pub fn copy_bytes(v: &Vec<u8>) -> (r: Vec<u8>)
    ensures
        r@ == v@,
{
    let mut r: Vec<u8> = Vec::new();
    let mut i: usize = 0;
    while i < v.len()
        invariant
            i <= v@.len(),
            r@ == v@.subrange(0, i as int),
        decreases v@.len() - i,
    {
        r.push(v[i]);
        i = i + 1;
    }
    assert(r@ =~= v@);
    r
}

/// A copy of a seed list.
fn copy_seeds(v: &Vec<Vec<u8>>) -> (r: Vec<Vec<u8>>)
    ensures
        seeds_view(r@) == seeds_view(v@),
{
    let mut r: Vec<Vec<u8>> = Vec::new();
    let mut i: usize = 0;
    while i < v.len()
        invariant
            i <= v@.len(),
            seeds_view(r@) == seeds_view(v@.subrange(0, i as int)),
        decreases v@.len() - i,
    {
        let c = copy_bytes(&v[i]);
        proof {
            assert(seeds_view(v@.subrange(0, i + 1)) =~= seeds_view(v@.subrange(0, i as int)).push(c@));
        }
        r.push(c);
        assert(seeds_view(r@) =~= seeds_view(v@.subrange(0, i + 1)));
        i = i + 1;
    }
    assert(v@.subrange(0, v@.len() as int) =~= v@);
    r
}

/// Builds the executable seed list of an escrow record.
fn escrow_seed_list(maker: &Key, seed: u64) -> (r: Vec<Vec<u8>>)
    ensures
        seeds_view(r@) == escrow_seeds(maker@, seed),
{
    let mut r: Vec<Vec<u8>> = Vec::new();
    r.push(vec![101u8, 115u8, 99u8, 114u8, 111u8, 119u8]);
    r.push(maker.to_vec());
    r.push(u64_le_bytes(seed));
    assert(seeds_view(r@) =~= escrow_seeds(maker@, seed));
    r
}

/// Builds the executable seed list of a vault.
fn vault_seed_list(owner: &Key) -> (r: Vec<Vec<u8>>)
    ensures
        seeds_view(r@) == vault_seeds(owner@),
{
    let mut r: Vec<Vec<u8>> = Vec::new();
    r.push(vec![118u8, 97u8, 117u8, 108u8, 116u8]);
    r.push(owner.to_vec());
    assert(seeds_view(r@) =~= vault_seeds(owner@));
    r
}

/// Builds the executable seed list of an associated token account.
fn associated_seed_list(wallet: &Key, token_program: &Key, mint: &Key) -> (r: Vec<Vec<u8>>)
    ensures
        seeds_view(r@) == associated_seeds(wallet@, token_program@, mint@),
{
    let mut r: Vec<Vec<u8>> = Vec::new();
    r.push(wallet.to_vec());
    r.push(token_program.to_vec());
    r.push(mint.to_vec());
    assert(seeds_view(r@) =~= associated_seeds(wallet@, token_program@, mint@));
    r
}

/// Appends the one-byte bump seed.
fn push_bump(seeds: &mut Vec<Vec<u8>>, bump: u8)
    ensures
        seeds_view(final(seeds)@) == with_bump(seeds_view(old(seeds)@), bump),
{
    let ghost before = seeds@;
    let last: Vec<u8> = vec![bump];
    assert(last@ =~= seq![bump]);
    seeds.push(last);
    assert(seeds_view(seeds@) =~= with_bump(seeds_view(before), bump));
}

/// The capability to sign for a derived address: it holds the exact seed
/// sequence (bump included) that derives `address` under `program`, and can
/// only be built once that derivation has been checked.
pub struct DerivedSigner {
    address: Key,
    program: Key,
    seeds: Vec<Vec<u8>>,
}

impl DerivedSigner {
    pub closed spec fn spec_address(&self) -> Seq<u8> {
        self.address@
    }

    pub closed spec fn spec_program(&self) -> Seq<u8> {
        self.program@
    }

    pub closed spec fn spec_seeds(&self) -> Seq<Seq<u8>> {
        seeds_view(self.seeds@)
    }

    /// The seeds derive the address under the program.
    pub open spec fn wf(&self) -> bool {
        created_address(self.spec_seeds(), self.spec_program()) == Some(self.spec_address())
    }

    /// The address this capability signs for.
    pub fn address(&self) -> (r: Key)
        ensures
            r@ == self.spec_address(),
    {
        self.address
    }

    /// The program the address is derived under.
    pub fn program(&self) -> (r: Key)
        ensures
            r@ == self.spec_program(),
    {
        self.program
    }

    /// A second capability for the same address and seeds.
    pub fn duplicate(&self) -> (r: DerivedSigner)
        ensures
            r.spec_address() == self.spec_address(),
            r.spec_program() == self.spec_program(),
            r.spec_seeds() == self.spec_seeds(),
    {
        DerivedSigner { address: self.address, program: self.program, seeds: copy_seeds(&self.seeds) }
    }

    /// The signing seeds, bump included.
    pub fn seeds(&self) -> (r: &Vec<Vec<u8>>)
        ensures
            seeds_view(r@) == self.spec_seeds(),
    {
        &self.seeds
    }
}

/// The escrow address of `maker` and `seed` under `program`, and its bump.
pub fn derive_escrow_address(maker: &Key, seed: u64, program: &Key) -> (r: Option<(Key, u8)>)
    ensures
        pair_view(r) == found_address(escrow_seeds(maker@, seed), program@),
        match r {
            Some((k, b)) => derives(k@, escrow_seeds(maker@, seed), b, program@),
            None => true,
        },
{
    let seeds = escrow_seed_list(maker, seed);
    find_address(&seeds, program)
}

/// The vault address of `owner` under `program`, and its bump.
pub fn derive_vault_address(owner: &Key, program: &Key) -> (r: Option<(Key, u8)>)
    ensures
        pair_view(r) == found_address(vault_seeds(owner@), program@),
        match r {
            Some((k, b)) => derives(k@, vault_seeds(owner@), b, program@),
            None => true,
        },
{
    let seeds = vault_seed_list(owner);
    find_address(&seeds, program)
}

/// The associated token account of `wallet` for `mint` under
/// `token_program`, as `ata_program` derives it, and its bump.
pub fn derive_associated_address(wallet: &Key, mint: &Key, token_program: &Key, ata_program: &Key) -> (r: Option<(Key, u8)>)
    ensures
        pair_view(r) == found_address(associated_seeds(wallet@, token_program@, mint@), ata_program@),
{
    let seeds = associated_seed_list(wallet, token_program, mint);
    find_address(&seeds, ata_program)
}

/// Checks that `account` is the associated token account of `wallet` for
/// `mint`.
pub fn verify_associated_address(account: &Key, wallet: &Key, mint: &Key, token_program: &Key, ata_program: &Key) -> (r: bool)
    ensures
        r == is_associated(account@, wallet@, mint@, token_program@, ata_program@),
{
    match derive_associated_address(wallet, mint, token_program, ata_program) {
        Some((k, _)) => k.same_as(account),
        None => false,
    }
}

/// Checks `presented` against the escrow derivation of `maker`, `seed` and
/// `bump`; on a match returns the capability to sign for it.
pub fn escrow_signer(presented: &Key, maker: &Key, seed: u64, bump: u8, program: &Key) -> (r:
    Option<DerivedSigner>)
    ensures
        r is Some <==> derives(presented@, escrow_seeds(maker@, seed), bump, program@),
        match r {
            Some(s) => s.wf() && s.spec_address() == presented@ && s.spec_program() == program@
                && s.spec_seeds() == with_bump(escrow_seeds(maker@, seed), bump),
            None => true,
        },
{
    let mut seeds = escrow_seed_list(maker, seed);
    push_bump(&mut seeds, bump);
    match create_address(&seeds, program) {
        Some(k) => {
            if k.same_as(presented) {
                Some(DerivedSigner { address: *presented, program: *program, seeds })
            } else {
                None
            }
        },
        None => None,
    }
}

/// Checks `presented` against the escrow derivation of `maker`, `seed` and
/// `bump`.
pub fn verify_escrow_address(presented: &Key, maker: &Key, seed: u64, bump: u8, program: &Key) -> (r:
    bool)
    ensures
        r == derives(presented@, escrow_seeds(maker@, seed), bump, program@),
{
    escrow_signer(presented, maker, seed, bump, program).is_some()
}

/// Finds the vault address of `owner`; when it is `presented`, returns the
/// capability to sign for it.
pub fn vault_signer(presented: &Key, owner: &Key, program: &Key) -> (r: Option<DerivedSigner>)
    ensures
        r is Some <==> (found_address(vault_seeds(owner@), program@) matches Some((k, _))
            && k == presented@),
        match r {
            Some(s) => s.wf() && s.spec_address() == presented@ && s.spec_program() == program@
                && s.spec_seeds() == with_bump(vault_seeds(owner@), vault_bump(owner@, program@)),
            None => true,
        },
{
    let mut seeds = vault_seed_list(owner);
    match find_address(&seeds, program) {
        Some((k, b)) => {
            if k.same_as(presented) {
                push_bump(&mut seeds, b);
                Some(DerivedSigner { address: *presented, program: *program, seeds })
            } else {
                None
            }
        },
        None => None,
    }
}

/// Derivation is deterministic and idempotent: two derivations of the escrow
/// address from the same maker, seed and program agree, and the address found
/// passes the check against the same maker, seed and the bump found.
pub proof fn lemma_derivation_deterministic(
    r1: Option<(Key, u8)>,
    r2: Option<(Key, u8)>,
    maker: Seq<u8>,
    seed: u64,
    program: Seq<u8>,
)
    requires
        pair_view(r1) == found_address(escrow_seeds(maker, seed), program),
        pair_view(r2) == found_address(escrow_seeds(maker, seed), program),
        match r1 {
            Some((k, b)) => derives(k@, escrow_seeds(maker, seed), b, program),
            None => true,
        },
    ensures
        pair_view(r1) == pair_view(r2),
        r1 matches Some((k, b)) ==> derives(k@, escrow_seeds(maker, seed), b, program),
{
}

} // verus!
