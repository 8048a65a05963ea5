//! The whitelist registry: an admin opens the whitelist, then adds a user by
//! creating that user's entry and removes the user by closing it. A user is
//! whitelisted exactly while the entry exists.
use vstd::prelude::*;
use crate::address::Address;
use crate::pda::{found_view, program_address, seed_of, try_find_program_address};

verus! {

/// The whitelist itself, one for the program.
#[derive(Clone, Copy, Debug, PartialEq, Eq)]
pub struct Whitelist {
    pub user: Address,
    pub bump: u8,
}

/// The entry of one whitelisted user.
#[derive(Clone, Copy, Debug, PartialEq, Eq)]
pub struct WhitelistUsers {
    pub key: Address,
    pub bump: u8,
}

/// The bytes of the word "whitelist".
pub open spec fn whitelist_word() -> Seq<u8> {
    seq![0x77u8, 0x68u8, 0x69u8, 0x74u8, 0x65u8, 0x6cu8, 0x69u8, 0x73u8, 0x74u8]
}

/// The bytes of the word "whitelist_users".
pub open spec fn whitelist_users_word() -> Seq<u8> {
    seq![
        0x77u8, 0x68u8, 0x69u8, 0x74u8, 0x65u8, 0x6cu8, 0x69u8, 0x73u8, 0x74u8, 0x5fu8,
        0x75u8, 0x73u8, 0x65u8, 0x72u8, 0x73u8,
    ]
}

impl Whitelist {
    /// The seeds of the address of the whitelist: the word "whitelist".
    pub open spec fn spec_seeds() -> Seq<Seq<u8>> {
        seq![whitelist_word()]
    }

    /// Builds the seeds of the address of the whitelist.
    pub fn seeds() -> (r: Vec<Vec<u8>>)
        ensures
            r.deep_view() == Whitelist::spec_seeds(),
    {
        let word: [u8; 9] = [0x77u8, 0x68u8, 0x69u8, 0x74u8, 0x65u8, 0x6cu8, 0x69u8, 0x73u8, 0x74u8];
        let mut out: Vec<Vec<u8>> = Vec::new();
        out.push(seed_of(&word));
        proof {
            assert(out.deep_view() =~~= Whitelist::spec_seeds());
        }
        out
    }

    /// The address that the program `program_id` owns for the whitelist,
    /// with its bump seed.
    pub fn find_address(program_id: &Address) -> (r: Option<(Address, u8)>)
        ensures
            found_view(r) == program_address(Whitelist::spec_seeds(), program_id@),
    {
        let seeds = Whitelist::seeds();
        try_find_program_address(&seeds, program_id)
    }
}

impl WhitelistUsers {
    /// The seeds of the address of the entry of `user`: the word
    /// "whitelist_users" and the user's address.
    pub open spec fn spec_seeds(user: Address) -> Seq<Seq<u8>> {
        seq![whitelist_users_word(), user@]
    }

    /// Builds the seeds of the address of the entry of `user`.
    pub fn seeds(user: &Address) -> (r: Vec<Vec<u8>>)
        ensures
            r.deep_view() == WhitelistUsers::spec_seeds(*user),
    {
        let word: [u8; 15] = [
            0x77u8, 0x68u8, 0x69u8, 0x74u8, 0x65u8, 0x6cu8, 0x69u8, 0x73u8, 0x74u8, 0x5fu8,
            0x75u8, 0x73u8, 0x65u8, 0x72u8, 0x73u8,
        ];
        let mut out: Vec<Vec<u8>> = Vec::new();
        out.push(seed_of(&word));
        out.push(seed_of(&user.bytes));
        proof {
            assert(out.deep_view() =~~= WhitelistUsers::spec_seeds(*user));
        }
        out
    }

    /// The address that the program `program_id` owns for the entry of
    /// `user`, with its bump seed. The user is whitelisted exactly while an
    /// account lives at this address.
    pub fn find_address(user: &Address, program_id: &Address) -> (r: Option<(Address, u8)>)
        ensures
            found_view(r) == program_address(WhitelistUsers::spec_seeds(*user), program_id@),
    {
        let seeds = WhitelistUsers::seeds(user);
        try_find_program_address(&seeds, program_id)
    }
}

/// Bump seeds found for the accounts of `InitializeWhitelist`.
#[derive(Clone, Copy, Debug, PartialEq, Eq)]
pub struct InitializeWhitelistBumps {
    pub whitelist_pda: u8,
}

/// The accounts of `initialize_whitelist`.
#[derive(Clone, Copy, Debug, PartialEq, Eq)]
pub struct InitializeWhitelist {
    pub admin: Address,
    pub whitelist_pda: Whitelist,
}

impl InitializeWhitelist {
    /// Fills in the new whitelist with the admin's address and the bump
    /// found.
    pub fn initialize_whitelist(&mut self, bumps: InitializeWhitelistBumps)
        ensures
            final(self).whitelist_pda == (Whitelist {
                user: old(self).admin,
                bump: bumps.whitelist_pda,
            }),
            final(self).admin == old(self).admin,
    {
        self.whitelist_pda = Whitelist { user: self.admin, bump: bumps.whitelist_pda };
    }
}

/// Bump seeds found for the accounts of `AddToWhitelist`.
#[derive(Clone, Copy, Debug, PartialEq, Eq)]
pub struct AddToWhitelistBumps {
    pub whitelist_users: u8,
}

/// The accounts of `add_to_whitelist`.
#[derive(Clone, Copy, Debug, PartialEq, Eq)]
pub struct AddToWhitelist {
    pub admin: Address,
    pub whitelist_pda: Whitelist,
    /// The address to be whitelisted.
    pub user: Address,
    /// The entry created for that address.
    pub whitelist_users: WhitelistUsers,
}

/// Fills in the new entry of the user to be whitelisted: the user's address
/// and the bump found. Nothing else changes.
pub fn add_to_whitelist(accounts: &mut AddToWhitelist, bumps: &AddToWhitelistBumps)
    ensures
        final(accounts).whitelist_users == (WhitelistUsers {
            key: old(accounts).user,
            bump: bumps.whitelist_users,
        }),
        final(accounts).admin == old(accounts).admin,
        final(accounts).whitelist_pda == old(accounts).whitelist_pda,
        final(accounts).user == old(accounts).user,
{
    accounts.whitelist_users = WhitelistUsers { key: accounts.user, bump: bumps.whitelist_users };
}

/// The accounts of `remove_from_whitelist`.
#[derive(Clone, Copy, Debug, PartialEq, Eq)]
pub struct RemoveFromWhitelist {
    pub admin: Address,
    pub whitelist_pda: Whitelist,
    /// The address to be taken off the whitelist.
    pub user: Address,
    /// The entry of that address; `None` once it is closed.
    pub whitelist_users: Option<WhitelistUsers>,
}

/// Takes the user off the whitelist by closing the user's entry. Nothing
/// else changes.
pub fn remove_from_whitelist(accounts: &mut RemoveFromWhitelist)
    ensures
        final(accounts).whitelist_users is None,
        final(accounts).admin == old(accounts).admin,
        final(accounts).whitelist_pda == old(accounts).whitelist_pda,
        final(accounts).user == old(accounts).user,
{
    accounts.whitelist_users = None;
}

} // verus!
