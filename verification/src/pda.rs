//! Address derivation: deterministic, off-curve ("program derived") addresses
//! computed from an ordered sequence of byte-string seeds and a program
//! identity, together with a disambiguation byte ("bump") that forces the
//! derivation off the ed25519 curve.

use vstd::prelude::*;

use crate::Id;
use crate::id_eq;

verus! {

/// What `Pubkey::create_program_address` returns for the given seeds and
/// program identity: the derived address, or `None` where the derivation
/// lands on the ed25519 curve or the seeds exceed the platform's limits.
pub uninterp spec fn exact_pda(seeds: Seq<Seq<u8>>, program_id: Seq<u8>) -> Option<Seq<u8>>;

/// What `Pubkey::try_find_program_address` returns for the given seeds and
/// program identity: the first address derivable with a disambiguation byte,
/// scanning the byte downward from 255, or `None` if no byte works.
pub uninterp spec fn found_pda(seeds: Seq<Seq<u8>>, program_id: Seq<u8>) -> Option<(Seq<u8>, u8)>;

/// Relies on `Pubkey::create_program_address` (solana-pubkey, re-exported by
/// anchor-lang): the result is a function of the seeds and the program
/// identity alone; `Err` means the seeds are unusable for an address.
#[verifier::external_body]
pub(crate) fn create_pda(seeds: &Vec<Vec<u8>>, program_id: &Id) -> (r: Option<Id>)
    ensures
        r matches Some(a) ==> exact_pda(seeds.deep_view(), program_id@) == Some(a@),
        r is None ==> exact_pda(seeds.deep_view(), program_id@) is None,
{
    let refs: Vec<&[u8]> = seeds.iter().map(|s| s.as_slice()).collect();
    let pk = anchor_lang::solana_program::pubkey::Pubkey::new_from_array(*program_id);
    match anchor_lang::solana_program::pubkey::Pubkey::create_program_address(&refs, &pk) {
        Ok(a) => Some(a.to_bytes()),
        Err(_) => None,
    }
}

/// Relies on `Pubkey::try_find_program_address` (solana-pubkey, re-exported by
/// anchor-lang): it appends a one-byte seed, scanning its value downward from
/// 255, and returns the first derivation that `create_program_address`
/// accepts, together with that byte; every greater byte was rejected.
#[verifier::external_body]
pub(crate) fn find_pda(seeds: &Vec<Vec<u8>>, program_id: &Id) -> (r: Option<(Id, u8)>)
    ensures
        r matches Some(p) ==> found_pda(seeds.deep_view(), program_id@) == Some((p.0@, p.1)),
        r is None ==> found_pda(seeds.deep_view(), program_id@) is None,
        r matches Some(p) ==> {
            &&& 1 <= p.1
            &&& exact_pda(seeds.deep_view().push(seq![p.1]), program_id@) == Some(p.0@)
            &&& forall|b: u8|
                p.1 < b ==> #[trigger] exact_pda(seeds.deep_view().push(seq![b]), program_id@) is None
        },
        r is None ==> forall|b: u8|
            1 <= b ==> #[trigger] exact_pda(seeds.deep_view().push(seq![b]), program_id@) is None,
{
    let refs: Vec<&[u8]> = seeds.iter().map(|s| s.as_slice()).collect();
    let pk = anchor_lang::solana_program::pubkey::Pubkey::new_from_array(*program_id);
    anchor_lang::solana_program::pubkey::Pubkey::try_find_program_address(&refs, &pk)
        .map(|p| (p.0.to_bytes(), p.1))
}

/// Derives the address and canonical disambiguation byte for the given seeds:
/// the byte is the greatest one whose derivation is off-curve, and every
/// greater byte yields no address at all.
pub fn derive_address(seeds: &Vec<Vec<u8>>, program_id: &Id) -> (r: Option<(Id, u8)>)
    ensures
        r matches Some(p) ==> found_pda(seeds.deep_view(), program_id@) == Some((p.0@, p.1)),
        r is None ==> found_pda(seeds.deep_view(), program_id@) is None,
        r matches Some(p) ==> {
            &&& 1 <= p.1
            &&& exact_pda(seeds.deep_view().push(seq![p.1]), program_id@) == Some(p.0@)
            &&& forall|b: u8|
                p.1 < b ==> #[trigger] exact_pda(seeds.deep_view().push(seq![b]), program_id@) is None
        },
{
    find_pda(seeds, program_id)
}

/// Recomputes the derivation with the supplied disambiguation byte appended
/// and compares the outcome with the supplied address.
pub fn verify_address(supplied: &Id, seeds: Vec<Vec<u8>>, bump: u8, program_id: &Id) -> (r: bool)
    ensures
        r == (exact_pda(seeds.deep_view().push(seq![bump]), program_id@) == Some(supplied@)),
{
    let ghost orig = seeds.deep_view();
    let mut with_bump = seeds;
    let mut bump_seed: Vec<u8> = Vec::new();
    bump_seed.push(bump);
    with_bump.push(bump_seed);
    proof {
        assert(bump_seed@ =~= seq![bump]);
        assert(with_bump.deep_view() =~~= orig.push(seq![bump]));
    }
    match create_pda(&with_bump, program_id) {
        Some(a) => id_eq(&a, supplied),
        None => false,
    }
}

/// Law: derivation is deterministic. Any two outcomes of the derivation for
/// identical seeds and program identity are identical.
pub proof fn lemma_derive_deterministic(
    seeds: Seq<Seq<u8>>,
    program_id: Seq<u8>,
    r1: Option<(Seq<u8>, u8)>,
    r2: Option<(Seq<u8>, u8)>,
)
    ensures
        r1 == found_pda(seeds, program_id) && r2 == found_pda(seeds, program_id) ==> r1 == r2,
{
}

/// Law: among disambiguation bytes at or above the canonical one, the
/// canonical byte is the only one that reproduces the derived address; every
/// greater byte derives no address at all, so verification rejects it.
/// (Bytes below the canonical one derive a different address in practice,
/// which the derivation primitive's contract does not promise.)
pub proof fn lemma_canonical_byte_unique(
    seeds: Seq<Seq<u8>>,
    program_id: Seq<u8>,
    address: Seq<u8>,
    bump: u8,
    other: u8,
)
    ensures
        (exact_pda(seeds.push(seq![bump]), program_id) == Some(address) && bump < other
            && (forall|b: u8|
            bump < b ==> #[trigger] exact_pda(seeds.push(seq![b]), program_id) is None))
            ==> exact_pda(seeds.push(seq![other]), program_id) != Some(address),
{
}

} // verus!
