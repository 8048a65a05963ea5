//! The instructions of the vault program, each on the accounts it is given.
use vstd::prelude::*;
use crate::address::Address;
use crate::vault_hook::error::{ErrorCode, HookError};
use crate::vault_hook::metas::{
    new_with_seeds, packed_seeds, zero_padded, ExtraAccountMeta, Seed, SeedView,
};
use crate::pda::{found_view, program_address, seed_of, try_find_program_address};
use crate::vault_hook::state::{
    extra_account_metas_word, vault_word, whitelist_word, Vault, Whitelist,
};
use crate::vault_hook::token_data::{
    spec_transferring_verdict, transferring_verdict, unpack_transferring, unpacked_transferring,
};

verus! {

/// The number of tokens that `init_mint` issues to the user: a thousand
/// tokens of nine decimals.
pub const INITIAL_MINT_AMOUNT: u64 = 1_000_000_000_000;

/// Position of the source account's owner among the accounts of a transfer.
pub const OWNER_ACCOUNT_INDEX: u8 = 3;

/// Position in the hook's instruction data at which the first argument
/// starts, after the eight bytes that name the instruction.
pub const FIRST_ARGUMENT_INDEX: u8 = 8;

/// Bump seeds found for the accounts of `InitializeVault`.
#[derive(Clone, Copy, Debug, PartialEq, Eq)]
pub struct InitializeVaultBumps {
    pub vault: u8,
}

/// The accounts of `initialize_vault`.
#[derive(Clone, Copy, Debug, PartialEq, Eq)]
pub struct InitializeVault {
    pub admin: Address,
    pub mint: Address,
    pub vault_token_account: Address,
    pub vault: Vault,
}

impl InitializeVault {
    /// Fills in the new vault: its admin is the signer, its mint and token
    /// account are the ones given, and its bump is the one found.
    pub fn initialize_vault(&mut self, bumps: InitializeVaultBumps)
        ensures
            final(self).vault == (Vault {
                admin: old(self).admin,
                mint_add: old(self).mint,
                vault_token_account: old(self).vault_token_account,
                bump: bumps.vault,
            }),
            final(self).admin == old(self).admin,
            final(self).mint == old(self).mint,
            final(self).vault_token_account == old(self).vault_token_account,
    {
        self.vault = Vault {
            admin: self.admin,
            mint_add: self.mint,
            vault_token_account: self.vault_token_account,
            bump: bumps.vault,
        };
    }
}

/// Bump seeds found for the accounts of `InitializeWhitelist`.
#[derive(Clone, Copy, Debug, PartialEq, Eq)]
pub struct InitializeWhitelistBumps {
    pub whitelist: u8,
}

/// The accounts of `initialize_whitelist`.
#[derive(Clone, Copy, Debug, PartialEq, Eq)]
pub struct InitializeWhitelist {
    pub admin: Address,
    pub whitelist: Whitelist,
    pub vault: Vault,
}

impl InitializeWhitelist {
    /// Fills in the new whitelist entry of `user`, whitelisted from the
    /// start.
    pub fn initialize_whitelist(&mut self, user: Address, bumps: InitializeWhitelistBumps)
        ensures
            final(self).whitelist == (Whitelist {
                user_key: user,
                is_whitelisted: true,
                bump: bumps.whitelist,
            }),
            final(self).admin == old(self).admin,
            final(self).vault == old(self).vault,
    {
        self.whitelist = Whitelist { user_key: user, is_whitelisted: true, bump: bumps.whitelist };
    }
}

/// Bump seeds found for the accounts of `WhitelistOperations`.
#[derive(Clone, Copy, Debug, PartialEq, Eq)]
pub struct WhitelistOperationsBumps {
    pub whitelist: u8,
}

/// The accounts of `add_to_whitelist` and `remove_from_whitelist`.
#[derive(Clone, Copy, Debug, PartialEq, Eq)]
pub struct WhitelistOperations {
    pub admin: Address,
    pub vault: Vault,
    pub whitelist: Whitelist,
}

impl WhitelistOperations {
    /// Marks `address` as whitelisted in its entry.
    pub fn add_to_whitelist(&mut self, address: Address, bumps: &WhitelistOperationsBumps)
        ensures
            final(self).whitelist == (Whitelist {
                user_key: address,
                is_whitelisted: true,
                bump: bumps.whitelist,
            }),
            final(self).admin == old(self).admin,
            final(self).vault == old(self).vault,
    {
        self.whitelist =
        Whitelist { user_key: address, is_whitelisted: true, bump: bumps.whitelist };
    }

    /// Marks `address` as not whitelisted in its entry; the entry stays.
    pub fn remove_from_whitelist(&mut self, address: Address, bumps: &WhitelistOperationsBumps)
        ensures
            final(self).whitelist == (Whitelist {
                user_key: address,
                is_whitelisted: false,
                bump: bumps.whitelist,
            }),
            final(self).admin == old(self).admin,
            final(self).vault == old(self).vault,
    {
        self.whitelist =
        Whitelist { user_key: address, is_whitelisted: false, bump: bumps.whitelist };
    }
}

/// A token account as the hook sees it: its address and its raw data.
#[derive(Debug, PartialEq, Eq)]
pub struct TokenAccountInfo {
    pub key: Address,
    pub data: Vec<u8>,
}

/// The accounts of `transfer_hook`.
#[derive(Debug, PartialEq, Eq)]
pub struct TransferHook {
    pub source_token: TokenAccountInfo,
    pub mint: Address,
    pub destination_token: Address,
    pub owner: Address,
    pub extra_account_meta_list: Address,
    pub admin: Address,
    pub whitelist: Whitelist,
    pub vault: Vault,
}

/// What the hook decides: the admin must be the vault's, then the source
/// account must be in the middle of a transfer, then its owner must be
/// whitelisted.
pub open spec fn spec_hook_verdict(
    admin: Address,
    vault_admin: Address,
    unpacked: Result<bool, anchor_lang::prelude::ProgramError>,
    is_whitelisted: bool,
) -> Result<(), HookError> {
    if admin != vault_admin {
        Err(HookError::Code(ErrorCode::AdminMismatch))
    } else if spec_transferring_verdict(unpacked) is Err {
        spec_transferring_verdict(unpacked)
    } else if !is_whitelisted {
        Err(HookError::Code(ErrorCode::NotWhitelisted))
    } else {
        Ok(())
    }
}

impl TransferHook {
    /// Runs when the token program calls the hook during a transfer of
    /// `_amount` tokens. Lets the transfer through when the admin given is
    /// the vault's, the source account is in the middle of a transfer, and
    /// the owner's whitelist entry says so; changes nothing.
    pub fn transfer_hook(&mut self, _amount: u64) -> (r: Result<(), HookError>)
        ensures
            r == spec_hook_verdict(
                old(self).admin,
                old(self).vault.admin,
                unpacked_transferring(old(self).source_token.data@),
                old(self).whitelist.is_whitelisted,
            ),
            *final(self) == *old(self),
    {
        if !self.admin.same(&self.vault.admin) {
            return Err(HookError::Code(ErrorCode::AdminMismatch));
        }
        match self.check_is_transferring() {
            Ok(()) => {},
            Err(e) => {
                return Err(e);
            },
        }
        if !self.whitelist.is_whitelisted {
            return Err(HookError::Code(ErrorCode::NotWhitelisted));
        }
        Ok(())
    }

    /// Checks that the hook runs inside a transfer: the source account's
    /// transfer-hook extension must have its `transferring` flag set.
    pub fn check_is_transferring(&mut self) -> (r: Result<(), HookError>)
        ensures
            r == spec_transferring_verdict(unpacked_transferring(old(self).source_token.data@)),
            *final(self) == *old(self),
    {
        let unpacked = unpack_transferring(&self.source_token.data);
        transferring_verdict(unpacked)
    }
}

/// The mint account as `deposit` reads it.
#[derive(Clone, Copy, Debug, PartialEq, Eq)]
pub struct MintInfo {
    pub key: Address,
    pub decimals: u8,
}

/// Bump seeds found for the accounts of `DepositVault`: none.
#[derive(Clone, Copy, Debug, PartialEq, Eq)]
pub struct DepositVaultBumps {
}

/// The accounts of `deposit`.
#[derive(Clone, Copy, Debug, PartialEq, Eq)]
pub struct DepositVault {
    pub user: Address,
    pub mint: MintInfo,
    pub user_ata: Address,
    pub vault_ata: Address,
    pub vault: Vault,
    pub extra_account_meta_list: Address,
    pub hook_program: Address,
}

/// A checked transfer for the token program to carry out.
#[derive(Clone, Copy, Debug, PartialEq, Eq)]
pub struct TransferChecked {
    pub from: Address,
    pub mint: Address,
    pub to: Address,
    pub authority: Address,
    pub amount: u64,
    pub decimals: u8,
    /// The accounts that the transfer hook needs: the list of extra
    /// accounts, then the hook program.
    pub remaining_accounts: [Address; 2],
}

impl DepositVault {
    /// The transfer that `deposit` asks of the token program.
    pub open spec fn spec_transfer(self, amount: u64) -> TransferChecked {
        TransferChecked {
            from: self.user_ata,
            mint: self.mint.key,
            to: self.vault_ata,
            authority: self.user,
            amount,
            decimals: self.mint.decimals,
            remaining_accounts: [self.extra_account_meta_list, self.hook_program],
        }
    }

    /// Deposits `amount` of the user's tokens into the vault: checks that
    /// the mint given is the vault's, and hands back the transfer for the
    /// token program to carry out, from the user's account to the vault's,
    /// under the user's authority. Changes nothing itself.
    pub fn deposit(&mut self, amount: u64, bumps: &DepositVaultBumps) -> (r: Result<
        TransferChecked,
        ErrorCode,
    >)
        ensures
            r == if old(self).vault.mint_add == old(self).mint.key {
                Ok::<TransferChecked, ErrorCode>(old(self).spec_transfer(amount))
            } else {
                Err::<TransferChecked, ErrorCode>(ErrorCode::MintMismatch)
            },
            *final(self) == *old(self),
    {
        if !self.vault.mint_add.same(&self.mint.key) {
            return Err(ErrorCode::MintMismatch);
        }
        Ok(
            TransferChecked {
                from: self.user_ata,
                mint: self.mint.key,
                to: self.vault_ata,
                authority: self.user,
                amount,
                decimals: self.mint.decimals,
                remaining_accounts: [self.extra_account_meta_list, self.hook_program],
            },
        )
    }
}

/// Bump seeds found for the accounts of `TokenFactory`.
#[derive(Clone, Copy, Debug, PartialEq, Eq)]
pub struct TokenFactoryBumps {
    pub blocklist: u8,
}

/// The accounts of `init_mint`.
#[derive(Clone, Copy, Debug, PartialEq, Eq)]
pub struct TokenFactory {
    pub user: Address,
    pub mint: Address,
    pub user_ata: Address,
    pub extra_account_meta_list: Address,
    pub blocklist: Whitelist,
}

/// An issue of new tokens for the token program to carry out.
#[derive(Clone, Copy, Debug, PartialEq, Eq)]
pub struct MintTo {
    pub mint: Address,
    pub to: Address,
    pub authority: Address,
    pub amount: u64,
}

impl TokenFactory {
    /// Hands back the first issue of the new mint for the token program to
    /// carry out: `INITIAL_MINT_AMOUNT` to the user's account, under the
    /// user's authority. Changes nothing itself.
    pub fn init_mint(&mut self, bumps: &TokenFactoryBumps) -> (r: MintTo)
        ensures
            r == (MintTo {
                mint: old(self).mint,
                to: old(self).user_ata,
                authority: old(self).user,
                amount: INITIAL_MINT_AMOUNT,
            }),
            *final(self) == *old(self),
    {
        MintTo {
            mint: self.mint,
            to: self.user_ata,
            authority: self.user,
            amount: INITIAL_MINT_AMOUNT,
        }
    }
}

/// The accounts of the instruction that creates the list of extra accounts.
#[derive(Clone, Copy, Debug, PartialEq, Eq)]
pub struct InitializeExtraAccountMetaList {
    pub admin: Address,
    pub extra_account_meta_list: Address,
    pub mint: Address,
}

/// The seeds of the whitelist entry that a transfer needs: the word
/// "whitelist", the address of the source account's owner, and the 32
/// bytes of the first argument of the hook's instruction.
pub open spec fn whitelist_meta_seeds() -> Seq<SeedView> {
    seq![
        SeedView::Literal { bytes: whitelist_word() },
        SeedView::AccountKey { index: OWNER_ACCOUNT_INDEX },
        SeedView::InstructionData { index: FIRST_ARGUMENT_INDEX, length: 32 },
    ]
}

/// The seeds of the vault that a transfer needs: the word "vault" and the
/// address of the source account's owner.
pub open spec fn vault_meta_seeds() -> Seq<SeedView> {
    seq![
        SeedView::Literal { bytes: vault_word() },
        SeedView::AccountKey { index: OWNER_ACCOUNT_INDEX },
    ]
}

/// An extra account derived from `seeds` that neither signs nor is written.
pub open spec fn is_read_only_meta(meta: ExtraAccountMeta, seeds: Seq<SeedView>) -> bool {
    &&& meta.discriminator == 1
    &&& meta.address_config@ == zero_padded(packed_seeds(seeds))
    &&& !meta.is_signer
    &&& !meta.is_writable
}

impl InitializeExtraAccountMetaList {
    /// The seeds of the address of the list of extra accounts of `mint`:
    /// the word "extra-account-metas" and the mint's address.
    pub open spec fn spec_seeds(mint: Address) -> Seq<Seq<u8>> {
        seq![extra_account_metas_word(), mint@]
    }

    /// Builds the seeds of the address of the list of extra accounts of
    /// `mint`.
    pub fn seeds(mint: &Address) -> (r: Vec<Vec<u8>>)
        ensures
            r.deep_view() == InitializeExtraAccountMetaList::spec_seeds(*mint),
    {
        let word: [u8; 19] = [
            0x65u8, 0x78u8, 0x74u8, 0x72u8, 0x61u8, 0x2du8, 0x61u8, 0x63u8, 0x63u8, 0x6fu8,
            0x75u8, 0x6eu8, 0x74u8, 0x2du8, 0x6du8, 0x65u8, 0x74u8, 0x61u8, 0x73u8,
        ];
        let mut out: Vec<Vec<u8>> = Vec::new();
        out.push(seed_of(&word));
        out.push(seed_of(&mint.bytes));
        proof {
            assert(out.deep_view() =~~= InitializeExtraAccountMetaList::spec_seeds(*mint));
        }
        out
    }

    /// The address that the program `program_id` owns for the list of
    /// extra accounts of `mint`, with its bump seed.
    pub fn find_address(mint: &Address, program_id: &Address) -> (r: Option<(Address, u8)>)
        ensures
            found_view(r) == program_address(
                InitializeExtraAccountMetaList::spec_seeds(*mint),
                program_id@,
            ),
    {
        let seeds = InitializeExtraAccountMetaList::seeds(mint);
        try_find_program_address(&seeds, program_id)
    }

    /// The extra accounts of the hook: the whitelist entry and the vault,
    /// both derived from seeds, read-only and not signing.
    pub fn extra_account_metas() -> (r: Vec<ExtraAccountMeta>)
        ensures
            r@.len() == 2,
            is_read_only_meta(r@[0], whitelist_meta_seeds()),
            is_read_only_meta(r@[1], vault_meta_seeds()),
            r@[0].address_config@ == whitelist_meta_config(),
            r@[1].address_config@ == vault_meta_config(),
    {
        proof {
            extra_account_configs();
        }
        let word: [u8; 9] = [0x77u8, 0x68u8, 0x69u8, 0x74u8, 0x65u8, 0x6cu8, 0x69u8, 0x73u8, 0x74u8];
        let literal = Seed::Literal { bytes: seed_of(&word) };
        assert(literal.deep_view() =~~= whitelist_meta_seeds()[0]);
        let mut whitelist_seeds: Vec<Seed> = Vec::new();
        whitelist_seeds.push(literal);
        whitelist_seeds.push(Seed::AccountKey { index: OWNER_ACCOUNT_INDEX });
        whitelist_seeds.push(Seed::InstructionData { index: FIRST_ARGUMENT_INDEX, length: 32 });
        proof {
            assert(whitelist_seeds.deep_view() =~= whitelist_meta_seeds());
            lemma_packed_three(whitelist_meta_seeds());
        }
        let word: [u8; 5] = [0x76u8, 0x61u8, 0x75u8, 0x6cu8, 0x74u8];
        let literal = Seed::Literal { bytes: seed_of(&word) };
        assert(literal.deep_view() =~~= vault_meta_seeds()[0]);
        let mut vault_seeds: Vec<Seed> = Vec::new();
        vault_seeds.push(literal);
        vault_seeds.push(Seed::AccountKey { index: OWNER_ACCOUNT_INDEX });
        proof {
            assert(vault_seeds.deep_view() =~= vault_meta_seeds());
            lemma_packed_two(vault_meta_seeds());
        }
        // Both lists of seeds take less than 32 bytes, so that neither packing fails.
        let mut metas: Vec<ExtraAccountMeta> = Vec::new();
        match new_with_seeds(&whitelist_seeds, false, false) {
            Ok(meta) => {
                metas.push(meta);
            },
            Err(_) => {
                assert(false);
            },
        }
        match new_with_seeds(&vault_seeds, false, false) {
            Ok(meta) => {
                metas.push(meta);
            },
            Err(_) => {
                assert(false);
            },
        }
        metas
    }
}

/// The 32 bytes that stand for the seeds of the whitelist entry: the
/// literal as 1, its length and its bytes, the owner's address as 3 and
/// the owner's position, the first argument as 2, its start and its
/// length, and zeroes to fill up.
pub open spec fn whitelist_meta_config() -> Seq<u8> {
    seq![
        1u8, 9u8, 0x77u8, 0x68u8, 0x69u8, 0x74u8, 0x65u8, 0x6cu8, 0x69u8, 0x73u8, 0x74u8, 3u8,
        3u8, 2u8, 8u8, 32u8, 0u8, 0u8, 0u8, 0u8, 0u8, 0u8, 0u8, 0u8, 0u8, 0u8, 0u8, 0u8, 0u8,
        0u8, 0u8, 0u8,
    ]
}

/// The 32 bytes that stand for the seeds of the vault: the literal as 1,
/// its length and its bytes, the owner's address as 3 and the owner's
/// position, and zeroes to fill up.
pub open spec fn vault_meta_config() -> Seq<u8> {
    seq![
        1u8, 5u8, 0x76u8, 0x61u8, 0x75u8, 0x6cu8, 0x74u8, 3u8, 3u8, 0u8, 0u8, 0u8, 0u8, 0u8,
        0u8, 0u8, 0u8, 0u8, 0u8, 0u8, 0u8, 0u8, 0u8, 0u8, 0u8, 0u8, 0u8, 0u8, 0u8, 0u8, 0u8,
        0u8,
    ]
}

/// Packing the seeds of the two extra accounts gives the two
/// configurations byte by byte.
pub proof fn extra_account_configs()
    ensures
        zero_padded(packed_seeds(whitelist_meta_seeds())) == whitelist_meta_config(),
        zero_padded(packed_seeds(vault_meta_seeds())) == vault_meta_config(),
{
    lemma_packed_three(whitelist_meta_seeds());
    lemma_packed_two(vault_meta_seeds());
    assert(zero_padded(packed_seeds(whitelist_meta_seeds())) =~= whitelist_meta_config());
    assert(zero_padded(packed_seeds(vault_meta_seeds())) =~= vault_meta_config());
}

/// Three seeds are packed one after the other.
proof fn lemma_packed_three(seeds: Seq<SeedView>)
    requires
        seeds.len() == 3,
    ensures
        packed_seeds(seeds) == seeds[0].packed() + seeds[1].packed() + seeds[2].packed(),
{
    lemma_packed_two(seeds.drop_last());
}

/// Two seeds are packed one after the other.
proof fn lemma_packed_two(seeds: Seq<SeedView>)
    requires
        seeds.len() == 2,
    ensures
        packed_seeds(seeds) == seeds[0].packed() + seeds[1].packed(),
{
    let one = seeds.drop_last();
    assert(one.drop_last().len() == 0);
    assert(packed_seeds(one.drop_last()) =~= Seq::<u8>::empty());
    assert(packed_seeds(one) =~= one[0].packed());
}

} // verus!
