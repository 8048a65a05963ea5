//! The accounts that the vault program keeps.
use vstd::prelude::*;
use crate::address::Address;
use crate::pda::{found_view, program_address, seed_of, try_find_program_address};

verus! {

/// A user's deposit.
#[derive(Clone, Copy, Debug, PartialEq, Eq)]
pub struct User {
    pub amount: u64,
    pub mint: Address,
    pub bump: u8,
}

/// Whether one user may send tokens of the vault's mint.
#[derive(Clone, Copy, Debug, PartialEq, Eq)]
pub struct Whitelist {
    pub user_key: Address,
    pub is_whitelisted: bool,
    pub bump: u8,
}

/// The vault of one admin for one mint.
#[derive(Clone, Copy, Debug, PartialEq, Eq)]
pub struct Vault {
    pub admin: Address,
    pub mint_add: Address,
    pub vault_token_account: Address,
    pub bump: u8,
}

/// The bytes of the word "vault".
pub open spec fn vault_word() -> Seq<u8> {
    seq![0x76u8, 0x61u8, 0x75u8, 0x6cu8, 0x74u8]
}

/// The bytes of the word "whitelist".
pub open spec fn whitelist_word() -> Seq<u8> {
    seq![0x77u8, 0x68u8, 0x69u8, 0x74u8, 0x65u8, 0x6cu8, 0x69u8, 0x73u8, 0x74u8]
}

/// The bytes of the word "extra-account-metas".
pub open spec fn extra_account_metas_word() -> Seq<u8> {
    seq![
        0x65u8, 0x78u8, 0x74u8, 0x72u8, 0x61u8, 0x2du8, 0x61u8, 0x63u8, 0x63u8, 0x6fu8,
        0x75u8, 0x6eu8, 0x74u8, 0x2du8, 0x6du8, 0x65u8, 0x74u8, 0x61u8, 0x73u8,
    ]
}

impl Vault {
    /// The seeds of the address of the vault of `admin`: the word "vault"
    /// and the admin's address.
    pub open spec fn spec_seeds(admin: Address) -> Seq<Seq<u8>> {
        seq![vault_word(), admin@]
    }

    /// Builds the seeds of the address of the vault of `admin`.
    pub fn seeds(admin: &Address) -> (r: Vec<Vec<u8>>)
        ensures
            r.deep_view() == Vault::spec_seeds(*admin),
    {
        let word: [u8; 5] = [0x76u8, 0x61u8, 0x75u8, 0x6cu8, 0x74u8];
        let mut out: Vec<Vec<u8>> = Vec::new();
        out.push(seed_of(&word));
        out.push(seed_of(&admin.bytes));
        proof {
            assert(out.deep_view() =~~= Vault::spec_seeds(*admin));
        }
        out
    }

    /// The address that the program `program_id` owns for the vault of
    /// `admin`, with its bump seed.
    pub fn find_address(admin: &Address, program_id: &Address) -> (r: Option<(Address, u8)>)
        ensures
            found_view(r) == program_address(Vault::spec_seeds(*admin), program_id@),
    {
        let seeds = Vault::seeds(admin);
        try_find_program_address(&seeds, program_id)
    }
}

impl Whitelist {
    /// The seeds of the address of the whitelist entry that `admin` keeps
    /// for `user`: the word "whitelist", the admin's address and the
    /// user's.
    pub open spec fn spec_seeds(admin: Address, user: Address) -> Seq<Seq<u8>> {
        seq![whitelist_word(), admin@, user@]
    }

    /// Builds the seeds of the address of the whitelist entry that `admin`
    /// keeps for `user`.
    pub fn seeds(admin: &Address, user: &Address) -> (r: Vec<Vec<u8>>)
        ensures
            r.deep_view() == Whitelist::spec_seeds(*admin, *user),
    {
        let word: [u8; 9] = [0x77u8, 0x68u8, 0x69u8, 0x74u8, 0x65u8, 0x6cu8, 0x69u8, 0x73u8, 0x74u8];
        let mut out: Vec<Vec<u8>> = Vec::new();
        out.push(seed_of(&word));
        out.push(seed_of(&admin.bytes));
        out.push(seed_of(&user.bytes));
        proof {
            assert(out.deep_view() =~~= Whitelist::spec_seeds(*admin, *user));
        }
        out
    }

    /// The address that the program `program_id` owns for the whitelist
    /// entry that `admin` keeps for `user`, with its bump seed.
    pub fn find_address(admin: &Address, user: &Address, program_id: &Address) -> (r: Option<
        (Address, u8),
    >)
        ensures
            found_view(r) == program_address(Whitelist::spec_seeds(*admin, *user), program_id@),
    {
        let seeds = Whitelist::seeds(admin, user);
        try_find_program_address(&seeds, program_id)
    }
}

} // verus!
