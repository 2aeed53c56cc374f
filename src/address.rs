use anchor_lang::prelude::Pubkey;
use vstd::prelude::*;

verus! {

/// A 32-byte account address: an asset, a program or a derived authority.
#[derive(Clone, Copy, Debug)]
pub struct Address {
    pub bytes: [u8; 32],
}

/// Where a derivation landed: the address and the bump seed that proves it.
#[derive(Clone, Copy, Debug)]
pub struct Derivation {
    pub address: Address,
    pub bump: u8,
}

/// Both derived addresses of one original asset.
#[derive(Clone, Copy, Debug)]
pub struct DerivedPair {
    /// Where the wrapped-asset descriptor lives.
    pub descriptor: Derivation,
    /// The keyless authority that owns the escrow and mints the wrapped asset.
    pub authority: Derivation,
}

/// The namespace tag of the wrapped-asset descriptor: `te_wrapper`.
pub open spec fn descriptor_tag() -> Seq<u8> {
    seq![116u8, 101, 95, 119, 114, 97, 112, 112, 101, 114]
}

/// The namespace tag of the custodial authority: `te_mint_authority`.
pub open spec fn authority_tag() -> Seq<u8> {
    seq![116u8, 101, 95, 109, 105, 110, 116, 95, 97, 117, 116, 104, 111, 114, 105, 116, 121]
}

pub fn descriptor_tag_bytes() -> (r: Vec<u8>)
    ensures
        r@ == descriptor_tag(),
{
    let r = vec![116u8, 101, 95, 119, 114, 97, 112, 112, 101, 114];
    assert(r@ =~= descriptor_tag());
    r
}

pub fn authority_tag_bytes() -> (r: Vec<u8>)
    ensures
        r@ == authority_tag(),
{
    let r = vec![116u8, 101, 95, 109, 105, 110, 116, 95, 97, 117, 116, 104, 111, 114, 105, 116, 121];
    assert(r@ =~= authority_tag());
    r
}

/// The seed list of a derivation under `tag`: the original asset's address, then the tag.
pub open spec fn seeds_of(original: Seq<u8>, tag: Seq<u8>) -> Seq<Seq<u8>> {
    seq![original, tag]
}

/// What the program-address search gives for two seeds under a program:
/// the address and its bump seed, or nothing where no bump seed works.
pub uninterp spec fn program_address_of(first: Seq<u8>, second: Seq<u8>, program: Seq<u8>) -> Option<(Seq<u8>, u8)>;

/// The view of a derivation result.
pub open spec fn derivation_view(d: Option<Derivation>) -> Option<(Seq<u8>, u8)> {
    match d {
        Some(d) => Some((d.address.bytes@, d.bump)),
        None => None,
    }
}

/// Relies on `Pubkey::try_find_program_address` of solana-program: a hash of the
/// seeds and the program id, searched over bump seeds from 255 down; it gives
/// `None` only where no bump seed leads off the curve (seeds here are at most 32 bytes).
#[verifier::external_body]
fn find_program_address(first: &[u8; 32], second: &[u8], program: &[u8; 32]) -> (r: Option<Derivation>)
    requires
        second@.len() <= 32,
    ensures
        derivation_view(r) == program_address_of(first@, second@, program@),
{
    let program_id = Pubkey::new_from_array(*program);
    match Pubkey::try_find_program_address(&[&first[..], second], &program_id) {
        Some((key, bump)) => Some(Derivation { address: Address { bytes: key.to_bytes() }, bump }),
        None => None,
    }
}

/// The derivation of `original` under `tag` for `program`.
pub open spec fn derived(original: Seq<u8>, tag: Seq<u8>, program: Seq<u8>) -> Option<(Seq<u8>, u8)> {
    program_address_of(seeds_of(original, tag)[0], seeds_of(original, tag)[1], program)
}

/// Derives the custodial authority of `original` under `program`.
pub fn derive_authority(original: &Address, program: &Address) -> (r: Option<Derivation>)
    ensures
        derivation_view(r) == derived(original.bytes@, authority_tag(), program.bytes@),
{
    let tag = authority_tag_bytes();
    find_program_address(&original.bytes, tag.as_slice(), &program.bytes)
}

/// Derives the address of the wrapped-asset descriptor of `original` under `program`.
pub fn derive_descriptor(original: &Address, program: &Address) -> (r: Option<Derivation>)
    ensures
        derivation_view(r) == derived(original.bytes@, descriptor_tag(), program.bytes@),
{
    let tag = descriptor_tag_bytes();
    find_program_address(&original.bytes, tag.as_slice(), &program.bytes)
}

/// Derives both addresses of `original`; `None` where either search fails.
pub fn derive_addresses(original: &Address, program: &Address) -> (r: Option<DerivedPair>)
    ensures
        r is Some <==> (derived(original.bytes@, descriptor_tag(), program.bytes@) is Some
            && derived(original.bytes@, authority_tag(), program.bytes@) is Some),
        r is Some ==> derivation_view(Some(r->Some_0.descriptor)) == derived(
            original.bytes@,
            descriptor_tag(),
            program.bytes@,
        ) && derivation_view(Some(r->Some_0.authority)) == derived(
            original.bytes@,
            authority_tag(),
            program.bytes@,
        ),
{
    let descriptor = derive_descriptor(original, program);
    let authority = derive_authority(original, program);
    match (descriptor, authority) {
        (Some(descriptor), Some(authority)) => Some(DerivedPair { descriptor, authority }),
        _ => None,
    }
}

/// Whether two addresses hold the same bytes.
pub fn same_address(a: &Address, b: &Address) -> (r: bool)
    ensures
        r == (a.bytes@ == b.bytes@),
{
    let mut i: usize = 0;
    while i < 32
        invariant
            i <= 32,
            a.bytes@.len() == 32,
            b.bytes@.len() == 32,
            forall|j: int| 0 <= j < i ==> a.bytes@[j] == b.bytes@[j],
        decreases 32 - i,
    {
        if a.bytes[i] != b.bytes[i] {
            return false;
        }
        i = i + 1;
    }
    assert(a.bytes@ =~= b.bytes@);
    true
}

/// Derivation is a function of the original asset and the program: two calls of
/// `derive_addresses` on equal inputs give equal outcomes.
pub proof fn lemma_derive_deterministic(a: Address, b: Address, program: Address)
    requires
        a.bytes@ == b.bytes@,
    ensures
        derived(a.bytes@, descriptor_tag(), program.bytes@) == derived(
            b.bytes@,
            descriptor_tag(),
            program.bytes@,
        ),
        derived(a.bytes@, authority_tag(), program.bytes@) == derived(
            b.bytes@,
            authority_tag(),
            program.bytes@,
        ),
{
}

/// Distinct original assets hash distinct seed lists, and the descriptor and the
/// authority of one asset hash distinct seed lists, so no two of these derivations
/// share their input.
pub proof fn lemma_seeds_distinct(a: Address, b: Address)
    requires
        a.bytes@ != b.bytes@,
    ensures
        seeds_of(a.bytes@, descriptor_tag()) != seeds_of(b.bytes@, descriptor_tag()),
        seeds_of(a.bytes@, authority_tag()) != seeds_of(b.bytes@, authority_tag()),
        seeds_of(a.bytes@, descriptor_tag()) != seeds_of(a.bytes@, authority_tag()),
{
    assert(seeds_of(a.bytes@, descriptor_tag())[0] != seeds_of(b.bytes@, descriptor_tag())[0]);
    assert(seeds_of(a.bytes@, authority_tag())[0] != seeds_of(b.bytes@, authority_tag())[0]);
    assert(descriptor_tag().len() != authority_tag().len());
    assert(seeds_of(a.bytes@, descriptor_tag())[1] != seeds_of(a.bytes@, authority_tag())[1]);
}

} // verus!
