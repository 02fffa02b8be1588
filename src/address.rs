//! Account addresses and the deterministic derivation of program-controlled ones.
use anchor_lang::prelude::Pubkey;
use vstd::prelude::*;

verus! {

/// A 32-byte account address, identity or asset identifier.
pub type Address = [u8; 32];

/// The program-derived address of `seeds` under `program`: `None` when the seeds are
/// over the size limits or hash to a point on the ed25519 curve.
pub uninterp spec fn program_address(seeds: Seq<Seq<u8>>, program: Seq<u8>) -> Option<Seq<u8>>;

/// The first program-derived address of `seeds` extended by a one-byte bump, trying
/// bumps from the largest down, with the bump that gave it.
pub uninterp spec fn canonical_address(seeds: Seq<Seq<u8>>, program: Seq<u8>) -> Option<(Seq<u8>, u8)>;

/// The bytes of each seed.
pub open spec fn seeds_view(seeds: Seq<Vec<u8>>) -> Seq<Seq<u8>> {
    seeds.map_values(|s: Vec<u8>| s@)
}

/// The bytes of an address that may be missing.
pub open spec fn key_view(k: Option<Address>) -> Option<Seq<u8>> {
    match k {
        Some(a) => Some(a@),
        None => None,
    }
}

/// Relies on `Pubkey::create_program_address` (solana-pubkey, re-exported by anchor-lang):
/// the result is a function of the seeds and the program id alone.
#[verifier::external_body]
fn create_program_address(seeds: &Vec<Vec<u8>>, program_id: &Address) -> (r: Option<Address>)
    ensures
        key_view(r) == program_address(seeds_view(seeds@), program_id@),
{
    let parts: Vec<&[u8]> = seeds.iter().map(|s| s.as_slice()).collect();
    Pubkey::create_program_address(&parts, &Pubkey::new_from_array(*program_id)).ok().map(
        |k| k.to_bytes(),
    )
}

/// Relies on `Pubkey::try_find_program_address` (solana-pubkey, re-exported by
/// anchor-lang): the result is a function of the seeds and the program id alone.
#[verifier::external_body]
fn try_find_program_address(seeds: &Vec<Vec<u8>>, program_id: &Address) -> (r: Option<(Address, u8)>)
    ensures
        match r {
            Some((a, b)) => canonical_address(seeds_view(seeds@), program_id@) == Some((a@, b)),
            None => canonical_address(seeds_view(seeds@), program_id@) is None,
        },
{
    let parts: Vec<&[u8]> = seeds.iter().map(|s| s.as_slice()).collect();
    Pubkey::try_find_program_address(&parts, &Pubkey::new_from_array(*program_id)).map(
        |(k, b)| (k.to_bytes(), b),
    )
}

/// The domain tag of escrow records: the bytes of "escrow".
pub open spec fn escrow_tag() -> Seq<u8> {
    seq![101u8, 115u8, 99u8, 114u8, 111u8, 119u8]
}

/// The domain tag of custody holdings: the bytes of "vault".
pub open spec fn vault_tag() -> Seq<u8> {
    seq![118u8, 97u8, 117u8, 108u8, 116u8]
}

/// The eight little-endian bytes of `n`.
pub open spec fn le_bytes(n: u64) -> Seq<u8> {
    seq![
        #[verifier::truncate] (n as u8),
        #[verifier::truncate] ((n >> 8u64) as u8),
        #[verifier::truncate] ((n >> 16u64) as u8),
        #[verifier::truncate] ((n >> 24u64) as u8),
        #[verifier::truncate] ((n >> 32u64) as u8),
        #[verifier::truncate] ((n >> 40u64) as u8),
        #[verifier::truncate] ((n >> 48u64) as u8),
        #[verifier::truncate] ((n >> 56u64) as u8),
    ]
}

/// The seeds of the escrow record that `maker` opens under `seed`, with its bump.
pub open spec fn escrow_seeds(maker: Seq<u8>, seed: u64, bump: u8) -> Seq<Seq<u8>> {
    seq![escrow_tag(), maker, le_bytes(seed), seq![bump]]
}

/// The seeds of the controlling address of the holding bound to the record at `escrow`.
pub open spec fn vault_seeds(escrow: Seq<u8>) -> Seq<Seq<u8>> {
    seq![vault_tag(), escrow]
}

/// The address of the record of (`maker`, `seed`) for the derivation tag `bump`.
pub open spec fn escrow_address_of(program: Seq<u8>, maker: Seq<u8>, seed: u64, bump: u8) -> Option<Seq<u8>> {
    program_address(escrow_seeds(maker, seed, bump), program)
}

/// The address that controls the holding bound to the record at `escrow`.
pub open spec fn vault_authority_of(program: Seq<u8>, escrow: Seq<u8>) -> Option<Seq<u8>> {
    match canonical_address(vault_seeds(escrow), program) {
        Some((a, _)) => Some(a),
        None => None,
    }
}

/// Whether two addresses hold the same bytes.
pub fn same_key(a: &Address, b: &Address) -> (r: bool)
    ensures
        r == (a@ == b@),
{
    let mut i: usize = 0;
    while i < 32
        invariant
            i <= 32,
            a@.len() == 32,
            b@.len() == 32,
            forall|j: int| 0 <= j < i ==> a@[j] == b@[j],
        decreases 32 - i,
    {
        if a[i] != b[i] {
            return false;
        }
        i = i + 1;
    }
    assert(a@ =~= b@);
    true
}

/// The bytes of `a` as a seed.
fn bytes_of(a: &Address) -> (r: Vec<u8>)
    ensures
        r@ == a@,
{
    let mut v: Vec<u8> = Vec::new();
    let mut i: usize = 0;
    while i < 32
        invariant
            i <= 32,
            a@.len() == 32,
            v@ == a@.subrange(0, i as int),
        decreases 32 - i,
    {
        v.push(a[i]);
        i = i + 1;
    }
    v
}

/// The address of the record of (`maker`, `seed`) for the derivation tag `bump`.
pub fn escrow_address(program_id: &Address, maker: &Address, seed: u64, bump: u8) -> (r: Option<Address>)
    ensures
        key_view(r) == escrow_address_of(program_id@, maker@, seed, bump),
{
    let mut tag: Vec<u8> = Vec::new();
    tag.push(101u8);
    tag.push(115u8);
    tag.push(99u8);
    tag.push(114u8);
    tag.push(111u8);
    tag.push(119u8);
    let mut le: Vec<u8> = Vec::new();
    le.push(#[verifier::truncate] (seed as u8));
    le.push(#[verifier::truncate] ((seed >> 8u64) as u8));
    le.push(#[verifier::truncate] ((seed >> 16u64) as u8));
    le.push(#[verifier::truncate] ((seed >> 24u64) as u8));
    le.push(#[verifier::truncate] ((seed >> 32u64) as u8));
    le.push(#[verifier::truncate] ((seed >> 40u64) as u8));
    le.push(#[verifier::truncate] ((seed >> 48u64) as u8));
    le.push(#[verifier::truncate] ((seed >> 56u64) as u8));
    let mut b: Vec<u8> = Vec::new();
    b.push(bump);
    let mut seeds: Vec<Vec<u8>> = Vec::new();
    seeds.push(tag);
    seeds.push(bytes_of(maker));
    seeds.push(le);
    seeds.push(b);
    proof {
        assert(seeds@[0]@ =~= escrow_tag());
        assert(seeds@[2]@ =~= le_bytes(seed));
        assert(seeds@[3]@ =~= seq![bump]);
        assert(seeds_view(seeds@) =~= escrow_seeds(maker@, seed, bump));
    }
    create_program_address(&seeds, program_id)
}

/// The address that controls the holding bound to the record at `escrow`.
pub fn vault_authority(program_id: &Address, escrow: &Address) -> (r: Option<Address>)
    ensures
        key_view(r) == vault_authority_of(program_id@, escrow@),
{
    let mut tag: Vec<u8> = Vec::new();
    tag.push(118u8);
    tag.push(97u8);
    tag.push(117u8);
    tag.push(108u8);
    tag.push(116u8);
    let mut seeds: Vec<Vec<u8>> = Vec::new();
    seeds.push(tag);
    seeds.push(bytes_of(escrow));
    proof {
        assert(seeds@[0]@ =~= vault_tag());
        assert(seeds_view(seeds@) =~= vault_seeds(escrow@));
    }
    match try_find_program_address(&seeds, program_id) {
        Some((a, _)) => Some(a),
        None => None,
    }
}

} // verus!
