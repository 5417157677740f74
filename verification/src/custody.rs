//! Where the protocol's records live. Every record has an address that is
//! derived from fixed fields alone, so that anyone can find an offer's
//! records without a table, and that no key exists for: only the protocol
//! can act in such an address's name.

use vstd::prelude::*;
use vstd::bytes::{spec_u64_to_le_bytes, u64_to_le_bytes};
use solana_program::pubkey::Pubkey;
use crate::address::Address;

verus! {

/// What `Pubkey::try_find_program_address` returns for the seeds `seeds`
/// under the program `program_id`: the derived address with its bump seed,
/// or `None` where the seeds are too many or too long or no bump seed
/// yields an address off the curve.
pub uninterp spec fn program_address(seeds: Seq<Seq<u8>>, program_id: Seq<u8>) -> Option<
    (Seq<u8>, u8),
>;

/// What a list of seeds holds: the bytes of each, in order.
pub open spec fn seed_bytes(seeds: Seq<Vec<u8>>) -> Seq<Seq<u8>> {
    seeds.map_values(|seed: Vec<u8>| seed@)
}

/// Calls `solana_program::pubkey::Pubkey::try_find_program_address`, which
/// hashes the seeds, a bump seed and the program's identity, and depends on
/// nothing else: the result is `program_address` of the arguments.
#[verifier::external_body]
fn find_program_address(seeds: &Vec<Vec<u8>>, program_id: &Address) -> (found: Option<
    (Address, u8),
>)
    ensures
        match found {
            Some((key, bump)) => program_address(seed_bytes(seeds@), program_id.bytes@) == Some(
                (key.bytes@, bump),
            ),
            None => program_address(seed_bytes(seeds@), program_id.bytes@) is None,
        },
{
    let parts: Vec<&[u8]> = seeds.iter().map(|seed| seed.as_slice()).collect();
    let id = Pubkey::new_from_array(program_id.bytes);
    match Pubkey::try_find_program_address(&parts, &id) {
        Some((key, bump)) => Some((Address { bytes: key.to_bytes() }, bump)),
        None => None,
    }
}

/// The tag under which offers are addressed: the bytes of `offer`.
pub open spec fn offer_tag() -> Seq<u8> {
    seq![111u8, 102u8, 102u8, 101u8, 114u8]
}

/// The tag under which allow-lists are addressed: the bytes of
/// `whitelist`.
pub open spec fn whitelist_tag() -> Seq<u8> {
    seq![119u8, 104u8, 105u8, 116u8, 101u8, 108u8, 105u8, 115u8, 116u8]
}

/// The seeds of a record of the offer `offer_id` of `maker`: the record's
/// tag, the maker's 32 bytes, and the offer's number in little-endian
/// order.
pub open spec fn record_seeds(tag: Seq<u8>, maker: Address, offer_id: u64) -> Seq<Seq<u8>> {
    seq![tag, maker.bytes@, spec_u64_to_le_bytes(offer_id)]
}

fn seed_list(tag: Vec<u8>, maker: &Address, offer_id: u64) -> (seeds: Vec<Vec<u8>>)
    ensures
        seed_bytes(seeds@) == record_seeds(tag@, *maker, offer_id),
{
    let mut maker_bytes: Vec<u8> = Vec::new();
    let mut i: usize = 0;
    while i < 32
        invariant
            i <= 32,
            maker_bytes@ == maker.bytes@.subrange(0, i as int),
        decreases 32 - i,
    {
        maker_bytes.push(maker.bytes[i]);
        assert(maker.bytes@.subrange(0, i + 1) =~= maker.bytes@.subrange(0, i as int).push(
            maker.bytes@[i as int],
        ));
        i += 1;
    }
    assert(maker.bytes@.subrange(0, 32) =~= maker.bytes@);
    let number = u64_to_le_bytes(offer_id);
    let mut seeds: Vec<Vec<u8>> = Vec::new();
    seeds.push(tag);
    seeds.push(maker_bytes);
    seeds.push(number);
    assert(seed_bytes(seeds@) =~= record_seeds(tag@, *maker, offer_id));
    seeds
}

/// The seeds from which the address of the offer `offer_id` of `maker` is
/// derived. The offer signs for its vault with these.
pub fn offer_seeds(maker: &Address, offer_id: u64) -> (seeds: Vec<Vec<u8>>)
    ensures
        seed_bytes(seeds@) == record_seeds(offer_tag(), *maker, offer_id),
{
    let tag: Vec<u8> = vec![111u8, 102u8, 102u8, 101u8, 114u8];
    assert(tag@ =~= offer_tag());
    seed_list(tag, maker, offer_id)
}

/// The seeds from which the address of the allow-list of the offer
/// `offer_id` of `maker` is derived.
pub fn whitelist_seeds(maker: &Address, offer_id: u64) -> (seeds: Vec<Vec<u8>>)
    ensures
        seed_bytes(seeds@) == record_seeds(whitelist_tag(), *maker, offer_id),
{
    let tag: Vec<u8> = vec![119u8, 104u8, 105u8, 116u8, 101u8, 108u8, 105u8, 115u8, 116u8];
    assert(tag@ =~= whitelist_tag());
    seed_list(tag, maker, offer_id)
}

/// The address at which the offer `offer_id` of `maker` lives under the
/// program `program_id`, with its bump seed, where the derivation yields
/// one.
pub fn find_offer_address(program_id: &Address, maker: &Address, offer_id: u64) -> (found: Option<
    (Address, u8),
>)
    ensures
        match found {
            Some((key, bump)) => program_address(
                record_seeds(offer_tag(), *maker, offer_id),
                program_id.bytes@,
            ) == Some((key.bytes@, bump)),
            None => program_address(
                record_seeds(offer_tag(), *maker, offer_id),
                program_id.bytes@,
            ) is None,
        },
{
    let seeds = offer_seeds(maker, offer_id);
    find_program_address(&seeds, program_id)
}

/// The address at which the allow-list of the offer `offer_id` of `maker`
/// lives under the program `program_id`, with its bump seed, where the
/// derivation yields one.
pub fn find_whitelist_address(program_id: &Address, maker: &Address, offer_id: u64) -> (found:
    Option<(Address, u8)>)
    ensures
        match found {
            Some((key, bump)) => program_address(
                record_seeds(whitelist_tag(), *maker, offer_id),
                program_id.bytes@,
            ) == Some((key.bytes@, bump)),
            None => program_address(
                record_seeds(whitelist_tag(), *maker, offer_id),
                program_id.bytes@,
            ) is None,
        },
{
    let seeds = whitelist_seeds(maker, offer_id);
    find_program_address(&seeds, program_id)
}

/// Whether `claimed` is the address that a derivation found.
pub fn is_derived_address(found: Option<(Address, u8)>, claimed: &Address) -> (matches: bool)
    ensures
        matches == (found is Some && found.unwrap().0 == *claimed),
{
    match found {
        Some((key, _)) => key == *claimed,
        None => false,
    }
}

/// Whether `claimed` is the address at which the offer `offer_id` of
/// `maker` lives under the program `program_id`. A vault whose owner passes
/// this test can be released by that offer and by nothing else.
pub fn is_offer_address(
    program_id: &Address,
    maker: &Address,
    offer_id: u64,
    claimed: &Address,
) -> (matches: bool)
    ensures
        matches == ({
            let derived = program_address(
                record_seeds(offer_tag(), *maker, offer_id),
                program_id.bytes@,
            );
            derived is Some && derived.unwrap().0 == claimed.bytes@
        }),
{
    let found = find_offer_address(program_id, maker, offer_id);
    let matches = is_derived_address(found, claimed);
    proof {
        if found is Some {
            let key = found.unwrap().0;
            if key.bytes@ == claimed.bytes@ {
                assert(key.bytes =~= claimed.bytes);
            }
        }
    }
    matches
}

} // verus!
