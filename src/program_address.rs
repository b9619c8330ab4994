use vstd::prelude::*;

use crate::address::Address;

verus! {

/// The program-derived address and bump seed that the runtime finds for `seeds`
/// under the program `program_id`, or `None` where it finds none.
pub uninterp spec fn program_address_of(seeds: Seq<Seq<u8>>, program_id: Seq<u8>) -> Option<
    (Seq<u8>, u8),
>;

/// Relies on `Pubkey::try_find_program_address` (solana-program, re-exported by
/// anchor-lang): a deterministic function of the seeds and the program id, which
/// returns `None` rather than panicking when no bump seed gives an address.
#[verifier::external_body]
fn find_program_address(seed: &[u8], key: &[u8; 32], program_id: &[u8; 32]) -> (r: Option<
    ([u8; 32], u8),
>)
    ensures
        r is Some == program_address_of(seq![seed@, key@], program_id@) is Some,
        r matches Some(found) ==> (found.0@, found.1) == program_address_of(
            seq![seed@, key@],
            program_id@,
        )->Some_0,
{
    let program = anchor_lang::prelude::Pubkey::new_from_array(*program_id);
    match anchor_lang::prelude::Pubkey::try_find_program_address(&[seed, &key[..]], &program) {
        Some((found, bump)) => Some((found.to_bytes(), bump)),
        None => None,
    }
}

/// The on-chain account address and bump seed of the record at `address`, for the
/// program `program_id`: derived from the namespace's seed followed by the key.
pub fn program_address(address: &Address, program_id: &[u8; 32]) -> (r: Option<([u8; 32], u8)>)
    ensures
        r is Some == program_address_of(
            seq![address.namespace.seed_spec(), address.key@],
            program_id@,
        ) is Some,
        r matches Some(found) ==> (found.0@, found.1) == program_address_of(
            seq![address.namespace.seed_spec(), address.key@],
            program_id@,
        )->Some_0,
{
    let seed = address.namespace.seed();
    find_program_address(seed.as_slice(), &address.key, program_id)
}

} // verus!
