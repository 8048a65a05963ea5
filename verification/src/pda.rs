//! Program-derived addresses: the address that a program owns for a list of
//! seeds.
use vstd::prelude::*;
use crate::address::Address;

verus! {

/// Copies a fixed word of bytes into a seed.
pub fn seed_of<const N: usize>(word: &[u8; N]) -> (r: Vec<u8>)
    ensures
        r@ == word@,
{
    let mut out: Vec<u8> = Vec::new();
    let mut i: usize = 0;
    while i < N
        invariant
            0 <= i <= N,
            out@ == word@.take(i as int),
        decreases N - i,
    {
        out.push(word[i]);
        assert(word@.take(i as int + 1) =~= word@.take(i as int).push(word@[i as int]));
        i += 1;
    }
    assert(word@.take(N as int) =~= word@);
    out
}

/// The program-derived address and bump seed for `seeds` under the program
/// `program_id`, where one exists.
pub uninterp spec fn program_address(seeds: Seq<Seq<u8>>, program_id: Seq<u8>) -> Option<
    (Seq<u8>, u8),
>;

/// What was found, with the address as its bytes.
pub open spec fn found_view(found: Option<(Address, u8)>) -> Option<(Seq<u8>, u8)> {
    match found {
        Some((address, bump)) => Some((address@, bump)),
        None => None,
    }
}

/// Calls `Pubkey::try_find_program_address` of `anchor_lang`. The contract
/// claims only that the outcome is a function of the seeds and the program
/// id: the same inputs give the same address and bump, or `None` alike.
#[verifier::external_body]
pub(crate) fn try_find_program_address(seeds: &Vec<Vec<u8>>, program_id: &Address) -> (r: Option<
    (Address, u8),
>)
    ensures
        found_view(r) == program_address(seeds.deep_view(), program_id@),
{
    let parts: Vec<&[u8]> = seeds.iter().map(|s| s.as_slice()).collect();
    let program = anchor_lang::prelude::Pubkey::new_from_array(program_id.bytes);
    let found = anchor_lang::prelude::Pubkey::try_find_program_address(&parts, &program);
    found.map(|(key, bump)| (Address { bytes: key.to_bytes() }, bump))
}

} // verus!
