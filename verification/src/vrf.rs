//! The randomness callback: an oracle delivers 32 random bytes, and the
//! program stores a number drawn from them in the user's account.
use vstd::prelude::*;
use vstd::bytes::spec_u64_from_le_bytes;
use crate::address::Address;

verus! {

/// The account in which a user keeps the last number drawn.
#[derive(Clone, Copy, Debug, PartialEq, Eq)]
pub struct UserAccount {
    pub user: Address,
    pub data: u64,
    pub bump: u8,
}

/// The accounts of `callback`.
#[derive(Clone, Copy, Debug, PartialEq, Eq)]
pub struct VrfCallback {
    /// The signer, which must be the oracle program's identity.
    pub vrf_program_identity: Address,
    pub user_account: UserAccount,
}

/// The eight bytes from which a number is drawn: every fourth byte of the
/// randomness, from the first on.
pub open spec fn drawn_bytes(randomness: Seq<u8>) -> Seq<u8>
    recommends
        randomness.len() == 32,
{
    seq![
        randomness[0],
        randomness[4],
        randomness[8],
        randomness[12],
        randomness[16],
        randomness[20],
        randomness[24],
        randomness[28],
    ]
}

/// The number drawn from 32 random bytes: the drawn bytes read as a
/// little-endian `u64`.
pub open spec fn spec_random_u64(randomness: Seq<u8>) -> u64
    recommends
        randomness.len() == 32,
{
    spec_u64_from_le_bytes(drawn_bytes(randomness))
}

/// Calls `rnd::random_u64` of `ephemeral_vrf_sdk`. The contract claims what
/// its source shows: the result is the little-endian number made of bytes
/// 0, 4, 8, 12, 16, 20, 24 and 28 of the randomness.
#[verifier::external_body]
pub(crate) fn random_u64(randomness: &[u8; 32]) -> (r: u64)
    ensures
        r == spec_random_u64(randomness@),
{
    ephemeral_vrf_sdk::rnd::random_u64(randomness)
}

impl VrfCallback {
    /// Receives the oracle's randomness and stores the number drawn from it
    /// in the user's account; nothing else changes.
    pub fn callback(&mut self, randomness: [u8; 32])
        ensures
            final(self).user_account.data == spec_random_u64(randomness@),
            final(self).user_account.user == old(self).user_account.user,
            final(self).user_account.bump == old(self).user_account.bump,
            final(self).vrf_program_identity == old(self).vrf_program_identity,
    {
        let rand_value = random_u64(&randomness);
        self.user_account.data = rand_value;
    }
}

} // verus!
