use vstd::prelude::*;
use vstd::bytes::{lemma_auto_spec_u64_to_from_le_bytes, spec_u64_to_le_bytes, u64_to_le_bytes};
use crate::pubkey::Pubkey;

verus! {

// Every record sits at an address derived from a list of seeds: a namespace
// tag, then the bytes of the identifiers that the record is keyed by.

/// The ASCII bytes of `validator-config`.
pub open spec fn config_tag() -> Seq<u8> {
    seq![118, 97, 108, 105, 100, 97, 116, 111, 114, 45, 99, 111, 110, 102, 105, 103]
}

/// The ASCII bytes of `validator`.
pub open spec fn validator_tag() -> Seq<u8> {
    seq![118, 97, 108, 105, 100, 97, 116, 111, 114]
}

/// The ASCII bytes of `validation`.
pub open spec fn validation_tag() -> Seq<u8> {
    seq![118, 97, 108, 105, 100, 97, 116, 105, 111, 110]
}

/// Seeds of the configuration singleton.
pub open spec fn config_seeds_spec() -> Seq<Seq<u8>> {
    seq![config_tag()]
}

/// Seeds of the record of the validator owned by `authority`.
pub open spec fn validator_seeds_spec(authority: Seq<u8>) -> Seq<Seq<u8>> {
    seq![validator_tag(), authority]
}

/// Seeds of the validation that the validator at `validator_address` submitted
/// with counter value `sequence`.
pub open spec fn validation_seeds_spec(validator_address: Seq<u8>, sequence: u64) -> Seq<Seq<u8>> {
    seq![validation_tag(), validator_address, spec_u64_to_le_bytes(sequence)]
}

pub open spec fn seeds_view(seeds: Seq<Vec<u8>>) -> Seq<Seq<u8>> {
    seeds.map_values(|s: Vec<u8>| s@)
}

/// The address and bump seed that the seeds derive under a program, if the
/// search for a bump seed succeeds.
pub uninterp spec fn derived_address(seeds: Seq<Seq<u8>>, program_id: Seq<u8>) -> Option<(Seq<u8>, u8)>;

pub open spec fn address_view(found: Option<(Pubkey, u8)>) -> Option<(Seq<u8>, u8)> {
    match found {
        Some((key, bump)) => Some((key@, bump)),
        None => None,
    }
}

/// Relies on `Pubkey::try_find_program_address` of the Solana program library:
/// the address (and bump seed) that it finds depends on the seeds and the
/// program id alone. It returns `None` instead of panicking.
#[verifier::external_body]
fn try_find_program_address(seeds: &Vec<Vec<u8>>, program_id: &Pubkey) -> (r: Option<(Pubkey, u8)>)
    ensures
        address_view(r) == derived_address(seeds_view(seeds@), program_id@),
{
    let slices: Vec<&[u8]> = seeds.iter().map(|s| s.as_slice()).collect();
    let program = anchor_lang::prelude::Pubkey::new_from_array(program_id.bytes);
    anchor_lang::prelude::Pubkey::try_find_program_address(&slices, &program).map(
        |(key, bump)| (Pubkey { bytes: key.to_bytes() }, bump),
    )
}

fn tag_bytes(tag: &[u8]) -> (r: Vec<u8>)
    ensures
        r@ == tag@,
{
    let mut out: Vec<u8> = Vec::new();
    let mut i: usize = 0;
    while i < tag.len()
        invariant
            i <= tag@.len(),
            out@ == tag@.take(i as int),
        decreases tag@.len() - i,
    {
        out.push(tag[i]);
        i = i + 1;
        assert(out@ =~= tag@.take(i as int));
    }
    assert(tag@.take(tag@.len() as int) =~= tag@);
    out
}

pub fn config_seeds() -> (r: Vec<Vec<u8>>)
    ensures
        seeds_view(r@) == config_seeds_spec(),
{
    let tag: [u8; 16] = [118, 97, 108, 105, 100, 97, 116, 111, 114, 45, 99, 111, 110, 102, 105, 103];
    let mut r: Vec<Vec<u8>> = Vec::new();
    r.push(tag_bytes(tag.as_slice()));
    assert(seeds_view(r@) =~= config_seeds_spec());
    r
}

pub fn validator_seeds(authority: &Pubkey) -> (r: Vec<Vec<u8>>)
    ensures
        seeds_view(r@) == validator_seeds_spec(authority@),
{
    let tag: [u8; 9] = [118, 97, 108, 105, 100, 97, 116, 111, 114];
    let mut r: Vec<Vec<u8>> = Vec::new();
    r.push(tag_bytes(tag.as_slice()));
    r.push(authority.to_vec());
    assert(seeds_view(r@) =~= validator_seeds_spec(authority@));
    r
}

pub fn validation_seeds(validator_address: &Pubkey, sequence: u64) -> (r: Vec<Vec<u8>>)
    ensures
        seeds_view(r@) == validation_seeds_spec(validator_address@, sequence),
{
    let tag: [u8; 10] = [118, 97, 108, 105, 100, 97, 116, 105, 111, 110];
    let mut r: Vec<Vec<u8>> = Vec::new();
    r.push(tag_bytes(tag.as_slice()));
    r.push(validator_address.to_vec());
    r.push(u64_to_le_bytes(sequence));
    assert(seeds_view(r@) =~= validation_seeds_spec(validator_address@, sequence));
    r
}

/// The address of the configuration singleton under `program_id`.
pub fn config_address(program_id: &Pubkey) -> (r: Option<(Pubkey, u8)>)
    ensures
        address_view(r) == derived_address(config_seeds_spec(), program_id@),
{
    try_find_program_address(&config_seeds(), program_id)
}

/// The address of the record of the validator owned by `authority`.
pub fn validator_address(program_id: &Pubkey, authority: &Pubkey) -> (r: Option<(Pubkey, u8)>)
    ensures
        address_view(r) == derived_address(validator_seeds_spec(authority@), program_id@),
{
    try_find_program_address(&validator_seeds(authority), program_id)
}

/// The address of the validation that the validator at `validator_address`
/// submits while its counter reads `sequence`.
pub fn validation_address(
    program_id: &Pubkey,
    validator_address: &Pubkey,
    sequence: u64,
) -> (r: Option<(Pubkey, u8)>)
    ensures
        address_view(r) == derived_address(
            validation_seeds_spec(validator_address@, sequence),
            program_id@,
        ),
{
    try_find_program_address(&validation_seeds(validator_address, sequence), program_id)
}

/// Validations never share seeds: two validations have the same seeds only
/// when they come from the same validator with the same sequence number, and
/// no validation has the seeds of a validator record or of the configuration.
pub proof fn lemma_validation_seeds_unique(a: Seq<u8>, s: u64, b: Seq<u8>, t: u64)
    ensures
        validation_seeds_spec(a, s) == validation_seeds_spec(b, t) ==> a == b && s == t,
        validation_seeds_spec(a, s) != validator_seeds_spec(b),
        validation_seeds_spec(a, s) != config_seeds_spec(),
{
    lemma_auto_spec_u64_to_from_le_bytes();
    if validation_seeds_spec(a, s) == validation_seeds_spec(b, t) {
        assert(validation_seeds_spec(a, s)[1] == validation_seeds_spec(b, t)[1]);
        assert(validation_seeds_spec(a, s)[2] == validation_seeds_spec(b, t)[2]);
    }
    assert(validation_seeds_spec(a, s).len() != validator_seeds_spec(b).len());
    assert(validation_seeds_spec(a, s).len() != config_seeds_spec().len());
}

/// Validator records never share seeds: two have the same seeds only when they
/// belong to the same identity.
pub proof fn lemma_validator_seeds_unique(a: Seq<u8>, b: Seq<u8>)
    ensures
        validator_seeds_spec(a) == validator_seeds_spec(b) ==> a == b,
        validator_seeds_spec(a) != config_seeds_spec(),
{
    if validator_seeds_spec(a) == validator_seeds_spec(b) {
        assert(validator_seeds_spec(a)[1] == validator_seeds_spec(b)[1]);
    }
    assert(validator_seeds_spec(a).len() != config_seeds_spec().len());
}

} // verus!
