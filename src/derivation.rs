use vstd::prelude::*;
use solana_program::pubkey::Pubkey;
use crate::constants::{
    collection_seed, collection_seed_bytes, edition_seed, edition_seed_bytes, init_seed,
    init_seed_bytes, metadata_seed, metadata_seed_bytes, token_seed, token_seed_bytes,
    associated_token_program_address, associated_token_program_id, token_program_address,
    token_program_id,
};
use crate::errors::ProgramError;

verus! {

/// A ledger address: 32 bytes.
pub type Address = [u8; 32];

/// What the ledger's address search gives for a seed list and an owning program: the first
/// address off the signing curve, with its bump byte, or nothing.
pub uninterp spec fn program_address(seeds: Seq<Seq<u8>>, program_id: Seq<u8>) -> Option<(Seq<u8>, u8)>;

pub open spec fn found_view(r: Option<(Address, u8)>) -> Option<(Seq<u8>, u8)> {
    match r {
        Some((a, b)) => Some((a@, b)),
        None => None,
    }
}

/// Relies on solana_program's `Pubkey::try_find_program_address`: the address and bump byte it
/// finds, or `None`, depend on the seeds and the program id alone.
#[verifier::external_body]
fn try_find_program_address(seeds: &Vec<Vec<u8>>, program_id: &Address) -> (r: Option<(Address, u8)>)
    ensures
        found_view(r) == program_address(seeds.deep_view(), program_id@),
{
    let parts: Vec<&[u8]> = seeds.iter().map(|s| s.as_slice()).collect();
    Pubkey::try_find_program_address(&parts, &Pubkey::new_from_array(*program_id)).map(
        |(key, bump)| (key.to_bytes(), bump),
    )
}

/// A derived address with the bump byte that puts it off the signing curve.
#[derive(Clone, Copy, Debug)]
pub struct Derived {
    pub address: Address,
    pub bump: u8,
}

/// The namespaces under which this program derives the addresses it owns.
#[derive(Clone, Copy, Debug, PartialEq, Eq)]
pub enum Namespace {
    Init,
    Token,
    Collection,
}

/// The seed bytes of a namespace.
pub open spec fn namespace_seed(ns: Namespace) -> Seq<u8> {
    match ns {
        Namespace::Init => init_seed(),
        Namespace::Token => token_seed(),
        Namespace::Collection => collection_seed(),
    }
}

/// The seed bytes of a namespace.
pub fn namespace_bytes(ns: Namespace) -> (r: Vec<u8>)
    ensures
        r@ == namespace_seed(ns),
{
    match ns {
        Namespace::Init => init_seed_bytes(),
        Namespace::Token => token_seed_bytes(),
        Namespace::Collection => collection_seed_bytes(),
    }
}

/// The seed and bump pair that lets the owning program act as the authority of a derived
/// address inside one delegated invocation.
#[derive(Clone, Copy, Debug, PartialEq, Eq)]
pub struct DerivationProof {
    pub namespace: Namespace,
    pub bump: u8,
}

/// What `derive` returns for a seed list and an owning program.
pub open spec fn derivation(seeds: Seq<Seq<u8>>, program_id: Seq<u8>) -> Result<(Seq<u8>, u8), ProgramError> {
    match program_address(seeds, program_id) {
        Some(found) => Ok(found),
        None => Err(ProgramError::NoValidDerivation),
    }
}

pub open spec fn derived_view(r: Result<Derived, ProgramError>) -> Result<(Seq<u8>, u8), ProgramError> {
    match r {
        Ok(d) => Ok((d.address@, d.bump)),
        Err(e) => Err(e),
    }
}

/// Maps a namespace and its dynamic parts to the program-owned address and its bump byte.
pub fn derive(seeds: &Vec<Vec<u8>>, program_id: &Address) -> (r: Result<Derived, ProgramError>)
    ensures
        derived_view(r) == derivation(seeds.deep_view(), program_id@),
{
    match try_find_program_address(seeds, program_id) {
        Some((address, bump)) => Ok(Derived { address, bump }),
        None => Err(ProgramError::NoValidDerivation),
    }
}

/// Two derivations from the same seeds and program give the same address and bump byte.
pub proof fn lemma_derive_deterministic(
    seeds: Seq<Seq<u8>>,
    program_id: Seq<u8>,
    first: Result<Derived, ProgramError>,
    second: Result<Derived, ProgramError>,
)
    requires
        derived_view(first) == derivation(seeds, program_id),
        derived_view(second) == derivation(seeds, program_id),
    ensures
        derived_view(first) == derived_view(second),
        first is Ok <==> second is Ok,
        first is Ok ==> first->Ok_0.address@ == second->Ok_0.address@ && first->Ok_0.bump
            == second->Ok_0.bump,
{
}

/// Builds the proof that authorizes acting as the address derived from `namespace` alone.
pub fn authority_proof(namespace: Namespace, derived: &Derived) -> (r: DerivationProof)
    ensures
        r == (DerivationProof { namespace, bump: derived.bump }),
{
    DerivationProof { namespace, bump: derived.bump }
}

pub open spec fn metadata_seeds(registry: Seq<u8>, mint: Seq<u8>) -> Seq<Seq<u8>> {
    seq![metadata_seed(), registry, mint]
}

pub open spec fn edition_seeds(registry: Seq<u8>, mint: Seq<u8>) -> Seq<Seq<u8>> {
    seq![metadata_seed(), registry, mint, edition_seed()]
}

proof fn lemma_bytes_deep_view(v: Vec<u8>)
    ensures
        v.deep_view() == v@,
{
    assert(v.deep_view() =~= v@);
}

/// The seed list of a single namespace.
pub fn single_seed(namespace: Vec<u8>) -> (r: Vec<Vec<u8>>)
    ensures
        r.deep_view() == seq![namespace@],
{
    let mut r: Vec<Vec<u8>> = Vec::new();
    r.push(namespace);
    proof {
        lemma_bytes_deep_view(r@[0]);
    }
    assert(r.deep_view() =~= seq![namespace@]);
    r
}

/// The metadata registry's record address for `mint`.
pub fn find_metadata_account(registry: &Address, mint: &Address) -> (r: Result<Derived, ProgramError>)
    ensures
        derived_view(r) == derivation(metadata_seeds(registry@, mint@), registry@),
{
    let mut seeds: Vec<Vec<u8>> = Vec::new();
    seeds.push(metadata_seed_bytes());
    seeds.push(address_bytes(registry));
    seeds.push(address_bytes(mint));
    proof {
        lemma_bytes_deep_view(seeds@[0]);
        lemma_bytes_deep_view(seeds@[1]);
        lemma_bytes_deep_view(seeds@[2]);
    }
    assert(seeds.deep_view() =~= metadata_seeds(registry@, mint@));
    derive(&seeds, registry)
}

/// The metadata registry's edition marker address for `mint`.
pub fn find_master_edition_account(registry: &Address, mint: &Address) -> (r: Result<Derived, ProgramError>)
    ensures
        derived_view(r) == derivation(edition_seeds(registry@, mint@), registry@),
{
    let mut seeds: Vec<Vec<u8>> = Vec::new();
    seeds.push(metadata_seed_bytes());
    seeds.push(address_bytes(registry));
    seeds.push(address_bytes(mint));
    seeds.push(edition_seed_bytes());
    proof {
        lemma_bytes_deep_view(seeds@[0]);
        lemma_bytes_deep_view(seeds@[1]);
        lemma_bytes_deep_view(seeds@[2]);
        lemma_bytes_deep_view(seeds@[3]);
    }
    assert(seeds.deep_view() =~= edition_seeds(registry@, mint@));
    derive(&seeds, registry)
}

/// The bytes of an address, as a seed.
pub fn address_bytes(a: &Address) -> (r: Vec<u8>)
    ensures
        r@ == a@,
{
    let mut r: Vec<u8> = Vec::new();
    let mut i: usize = 0;
    while i < 32
        invariant
            0 <= i <= 32,
            a@.len() == 32,
            r@ == a@.subrange(0, i as int),
        decreases 32 - i,
    {
        r.push(a[i]);
        i = i + 1;
        assert(r@ =~= a@.subrange(0, i as int));
    }
    assert(a@.subrange(0, 32) =~= a@);
    r
}

pub open spec fn associated_seeds(wallet: Seq<u8>, mint: Seq<u8>) -> Seq<Seq<u8>> {
    seq![wallet, token_program_id(), mint]
}

/// The associated token account that holds `wallet`'s units of `mint`.
pub fn find_associated_token_account(wallet: &Address, mint: &Address) -> (r: Result<Derived, ProgramError>)
    ensures
        derived_view(r) == derivation(associated_seeds(wallet@, mint@), associated_token_program_id()),
{
    let token_program = token_program_address();
    let associated_program = associated_token_program_address();
    let mut seeds: Vec<Vec<u8>> = Vec::new();
    seeds.push(address_bytes(wallet));
    seeds.push(address_bytes(&token_program));
    seeds.push(address_bytes(mint));
    proof {
        lemma_bytes_deep_view(seeds@[0]);
        lemma_bytes_deep_view(seeds@[1]);
        lemma_bytes_deep_view(seeds@[2]);
    }
    assert(seeds.deep_view() =~= associated_seeds(wallet@, mint@));
    derive(&seeds, &associated_program)
}

/// Whether two addresses hold the same bytes.
pub fn same_address(a: &Address, b: &Address) -> (r: bool)
    ensures
        r == (a@ == b@),
{
    let mut i: usize = 0;
    while i < 32
        invariant
            0 <= i <= 32,
            a@.len() == 32,
            b@.len() == 32,
            forall|j: int| 0 <= j < i ==> a@[j] == b@[j],
        decreases 32 - i,
    {
        if a[i] != b[i] {
            return false;
        }
        i = i + 1;
    }
    assert(a@ =~= b@);
    true
}

} // verus!
