use anchor_lang::prelude::{ProgramError, Pubkey};
use anchor_programs::address::Address;
use anchor_programs::vault_hook::error::{ErrorCode, HookError};
use anchor_programs::vault_hook::instructions::{
    DepositVault, DepositVaultBumps, InitializeExtraAccountMetaList, InitializeVault,
    InitializeVaultBumps, InitializeWhitelist, InitializeWhitelistBumps, MintInfo, MintTo,
    TokenAccountInfo, TokenFactory, TokenFactoryBumps, TransferChecked, TransferHook,
    WhitelistOperations, WhitelistOperationsBumps, INITIAL_MINT_AMOUNT,
};
use anchor_programs::vault_hook::metas::ExtraAccountMeta;
use anchor_programs::vault_hook::state::{User, Vault, Whitelist};
use anchor_programs::vault_hook::token_data::transferring_verdict;
use anchor_spl::token_2022::spl_token_2022::extension::transfer_hook::TransferHookAccount;
use anchor_spl::token_2022::spl_token_2022::extension::{
    BaseStateWithExtensionsMut, ExtensionType, PodStateWithExtensionsMut,
};
use anchor_spl::token_2022::spl_token_2022::pod::PodAccount;
use anchor_spl::token_2022::spl_token_2022::state::Account;
use spl_tlv_account_resolution::seeds::Seed;

const PROGRAM_ID: [u8; 32] = [9u8; 32];

fn admin() -> Address {
    Address::new([1u8; 32])
}

fn user() -> Address {
    Address::new([2u8; 32])
}

fn mint() -> Address {
    Address::new([3u8; 32])
}

fn token_account() -> Address {
    Address::new([4u8; 32])
}

fn blank() -> Address {
    Address::new([0u8; 32])
}

fn blank_vault() -> Vault {
    Vault { admin: blank(), mint_add: blank(), vault_token_account: blank(), bump: 0 }
}

fn blank_whitelist() -> Whitelist {
    Whitelist { user_key: blank(), is_whitelisted: false, bump: 0 }
}

fn pda(seeds: &[&[u8]]) -> (Address, u8) {
    let (key, bump) = Pubkey::find_program_address(seeds, &Pubkey::new_from_array(PROGRAM_ID));
    (Address::new(key.to_bytes()), bump)
}

fn init_vault_helper(admin: &Address) -> (Address, Vault) {
    let (vault_pda, bump) =
        Vault::find_address(admin, &Address::new(PROGRAM_ID)).unwrap();
    let mut accounts = InitializeVault {
        admin: *admin,
        mint: mint(),
        vault_token_account: token_account(),
        vault: blank_vault(),
    };
    accounts.initialize_vault(InitializeVaultBumps { vault: bump });
    (vault_pda, accounts.vault)
}

fn init_whitelist_helper(admin: &Address, user: &Address) -> (Address, Whitelist, Vault) {
    let (whitelist_pda, bump) =
        Whitelist::find_address(admin, user, &Address::new(PROGRAM_ID)).unwrap();
    let (_vault_pda, vault) = init_vault_helper(admin);
    let mut accounts =
        InitializeWhitelist { admin: *admin, whitelist: blank_whitelist(), vault };
    accounts.initialize_whitelist(*user, InitializeWhitelistBumps { whitelist: bump });
    (whitelist_pda, accounts.whitelist, accounts.vault)
}

#[test]
fn test_init_vault() {
    let admin = admin();
    let (vault_pda, vault_account_metadata) = init_vault_helper(&admin);
    assert_eq!(vault_pda, pda(&[b"vault", admin.to_bytes().as_ref()]).0);
    let mint = vault_account_metadata.mint_add;
    assert_eq!(vault_account_metadata.admin, admin);
    assert_eq!(vault_account_metadata.mint_add, mint);
    assert_eq!(mint, self::mint());
    assert_eq!(vault_account_metadata.vault_token_account, token_account());
    assert_eq!(vault_account_metadata.bump, pda(&[b"vault", admin.to_bytes().as_ref()]).1);
}

#[test]
fn test_init_whitelist() {
    let admin = admin();
    let (whitelist_pda, whitelist, vault) = init_whitelist_helper(&admin, &admin);
    let expected =
        pda(&[b"whitelist", admin.to_bytes().as_ref(), admin.to_bytes().as_ref()]);
    assert_eq!(whitelist_pda, expected.0);
    assert_eq!(whitelist, Whitelist { user_key: admin, is_whitelisted: true, bump: expected.1 });
    assert_eq!(vault.admin, admin);
}

#[test]
fn test_operations_on_whitelist() {
    let admin = admin();
    let user = user();
    let (whitelist_pda, whitelist, vault) = init_whitelist_helper(&admin, &user);
    let expected = pda(&[b"whitelist", admin.to_bytes().as_ref(), user.to_bytes().as_ref()]);
    assert_eq!(whitelist_pda, expected.0);
    let bumps = WhitelistOperationsBumps { whitelist: expected.1 };

    let mut accounts = WhitelistOperations { admin, vault, whitelist };
    accounts.add_to_whitelist(user, &bumps);
    assert_eq!(accounts.whitelist.user_key, user);
    assert_eq!(accounts.whitelist.is_whitelisted, true);

    accounts.remove_from_whitelist(user, &bumps);
    assert_eq!(accounts.whitelist.user_key, user);
    assert_eq!(accounts.whitelist.is_whitelisted, false);
    assert_eq!(accounts.whitelist.bump, expected.1);
    assert_eq!(accounts.vault, vault);
    assert_eq!(accounts.admin, admin);
}

#[test]
fn derived_addresses_follow_their_seeds() {
    let program = Address::new(PROGRAM_ID);
    assert_eq!(Vault::seeds(&admin()), vec![b"vault".to_vec(), vec![1u8; 32]]);
    assert_eq!(
        Whitelist::seeds(&admin(), &user()),
        vec![b"whitelist".to_vec(), vec![1u8; 32], vec![2u8; 32]]
    );
    assert_eq!(
        InitializeExtraAccountMetaList::seeds(&mint()),
        vec![b"extra-account-metas".to_vec(), vec![3u8; 32]]
    );
    assert_eq!(
        InitializeExtraAccountMetaList::find_address(&mint(), &program),
        Some(pda(&[b"extra-account-metas", &[3u8; 32]]))
    );
    assert_ne!(Vault::find_address(&admin(), &program), Vault::find_address(&user(), &program));
}

/// The data of a token account of the token-2022 program, with a
/// transfer-hook extension whose flag is `transferring`, or with another
/// extension in its place.
fn token_account_data(transferring: Option<bool>) -> Vec<u8> {
    let extension = match transferring {
        Some(_) => ExtensionType::TransferHookAccount,
        None => ExtensionType::ImmutableOwner,
    };
    let len = ExtensionType::try_calculate_account_len::<Account>(&[extension]).unwrap();
    let mut data = vec![0u8; len];
    {
        let mut state =
            PodStateWithExtensionsMut::<PodAccount>::unpack_uninitialized(&mut data).unwrap();
        state.base.state = 1;
        state.init_account_type().unwrap();
        match transferring {
            Some(flag) => {
                let hook = state.init_extension::<TransferHookAccount>(true).unwrap();
                hook.transferring = flag.into();
            }
            None => {
                state.init_account_extension_from_type(ExtensionType::ImmutableOwner).unwrap();
            }
        }
    }
    data
}

fn hook_accounts(data: Vec<u8>, is_whitelisted: bool) -> TransferHook {
    TransferHook {
        source_token: TokenAccountInfo { key: token_account(), data },
        mint: mint(),
        destination_token: Address::new([5u8; 32]),
        owner: user(),
        extra_account_meta_list: Address::new([6u8; 32]),
        admin: admin(),
        whitelist: Whitelist { user_key: user(), is_whitelisted, bump: 250 },
        vault: Vault {
            admin: admin(),
            mint_add: mint(),
            vault_token_account: token_account(),
            bump: 251,
        },
    }
}

#[test]
fn hook_passes_whitelisted_owner_during_transfer() {
    let mut accounts = hook_accounts(token_account_data(Some(true)), true);
    assert_eq!(accounts.transfer_hook(1_000), Ok(()));
    assert_eq!(accounts.check_is_transferring(), Ok(()));
    assert_eq!(accounts, hook_accounts(token_account_data(Some(true)), true));
}

#[test]
fn hook_stops_owner_who_is_not_whitelisted() {
    let mut accounts = hook_accounts(token_account_data(Some(true)), false);
    assert_eq!(accounts.transfer_hook(1), Err(HookError::Code(ErrorCode::NotWhitelisted)));
}

#[test]
fn hook_stops_foreign_admin_first() {
    let mut accounts = hook_accounts(token_account_data(Some(false)), false);
    accounts.admin = user();
    assert_eq!(accounts.transfer_hook(1), Err(HookError::Code(ErrorCode::AdminMismatch)));
    let mut accounts = hook_accounts(Vec::new(), true);
    accounts.vault.admin = user();
    assert_eq!(accounts.transfer_hook(1), Err(HookError::Code(ErrorCode::AdminMismatch)));
}

#[test]
fn hook_stops_when_not_transferring() {
    let mut accounts = hook_accounts(token_account_data(Some(false)), true);
    assert_eq!(accounts.transfer_hook(1), Err(HookError::NotTransferring));
    assert_eq!(accounts.check_is_transferring(), Err(HookError::NotTransferring));
}

#[test]
fn hook_passes_on_unreadable_account_data() {
    let mut accounts = hook_accounts(Vec::new(), true);
    assert_eq!(
        accounts.transfer_hook(1),
        Err(HookError::Program(ProgramError::InvalidAccountData))
    );
    // An account of the right shape that lacks the extension.
    let mut accounts = hook_accounts(token_account_data(None), true);
    assert!(matches!(accounts.transfer_hook(1), Err(HookError::Program(_))));
    // An account that was never initialized.
    let mut data = token_account_data(Some(true));
    data[108] = 0;
    let mut accounts = hook_accounts(data, true);
    assert_eq!(
        accounts.check_is_transferring(),
        Err(HookError::Program(ProgramError::UninitializedAccount))
    );
}

#[test]
fn transferring_verdict_covers_every_outcome() {
    assert_eq!(transferring_verdict(Ok(true)), Ok(()));
    assert_eq!(transferring_verdict(Ok(false)), Err(HookError::NotTransferring));
    assert_eq!(
        transferring_verdict(Err(ProgramError::Custom(7))),
        Err(HookError::Program(ProgramError::Custom(7)))
    );
}

fn deposit_accounts() -> DepositVault {
    DepositVault {
        user: user(),
        mint: MintInfo { key: mint(), decimals: 9 },
        user_ata: Address::new([21u8; 32]),
        vault_ata: Address::new([22u8; 32]),
        vault: Vault {
            admin: admin(),
            mint_add: mint(),
            vault_token_account: Address::new([22u8; 32]),
            bump: 254,
        },
        extra_account_meta_list: Address::new([23u8; 32]),
        hook_program: Address::new(PROGRAM_ID),
    }
}

#[test]
fn deposit_asks_for_checked_transfer_into_vault() {
    let mut accounts = deposit_accounts();
    assert_eq!(
        accounts.deposit(5_000, &DepositVaultBumps {}),
        Ok(TransferChecked {
            from: Address::new([21u8; 32]),
            mint: mint(),
            to: Address::new([22u8; 32]),
            authority: user(),
            amount: 5_000,
            decimals: 9,
            remaining_accounts: [Address::new([23u8; 32]), Address::new(PROGRAM_ID)],
        })
    );
    assert_eq!(accounts, deposit_accounts());
}

#[test]
fn deposit_rejects_foreign_mint() {
    let mut accounts = deposit_accounts();
    accounts.mint.key = Address::new([33u8; 32]);
    assert_eq!(accounts.deposit(5_000, &DepositVaultBumps {}), Err(ErrorCode::MintMismatch));
    let mut accounts = deposit_accounts();
    accounts.vault.mint_add = Address::new([33u8; 32]);
    assert_eq!(accounts.deposit(0, &DepositVaultBumps {}), Err(ErrorCode::MintMismatch));
}

#[test]
fn init_mint_issues_a_thousand_tokens_to_the_user() {
    let mut accounts = TokenFactory {
        user: user(),
        mint: mint(),
        user_ata: Address::new([21u8; 32]),
        extra_account_meta_list: Address::new([23u8; 32]),
        blocklist: blank_whitelist(),
    };
    let issue = accounts.init_mint(&TokenFactoryBumps { blocklist: 255 });
    assert_eq!(
        issue,
        MintTo {
            mint: mint(),
            to: Address::new([21u8; 32]),
            authority: user(),
            amount: 1_000_000_000_000,
        }
    );
    assert_eq!(INITIAL_MINT_AMOUNT, 1_000 * 1_000_000_000);
}

#[test]
fn extra_account_metas_pack_their_seeds() {
    let metas = InitializeExtraAccountMetaList::extra_account_metas();
    let mut whitelist_config = [0u8; 32];
    whitelist_config[0] = 1;
    whitelist_config[1] = 9;
    whitelist_config[2..11].copy_from_slice(b"whitelist");
    whitelist_config[11..13].copy_from_slice(&[3, 3]);
    whitelist_config[13..16].copy_from_slice(&[2, 8, 32]);
    let mut vault_config = [0u8; 32];
    vault_config[0] = 1;
    vault_config[1] = 5;
    vault_config[2..7].copy_from_slice(b"vault");
    vault_config[7..9].copy_from_slice(&[3, 3]);
    assert_eq!(
        metas,
        vec![
            ExtraAccountMeta {
                discriminator: 1,
                address_config: whitelist_config,
                is_signer: false,
                is_writable: false,
            },
            ExtraAccountMeta {
                discriminator: 1,
                address_config: vault_config,
                is_signer: false,
                is_writable: false,
            },
        ]
    );
}

#[test]
fn extra_account_metas_agree_with_the_resolution_crate() {
    let metas = InitializeExtraAccountMetaList::extra_account_metas();
    let whitelist = spl_tlv_account_resolution::account::ExtraAccountMeta::new_with_seeds(
        &[
            Seed::Literal { bytes: b"whitelist".to_vec() },
            Seed::AccountKey { index: 3 },
            Seed::InstructionData { index: 8, length: 32 },
        ],
        false,
        false,
    )
    .unwrap();
    let vault = spl_tlv_account_resolution::account::ExtraAccountMeta::new_with_seeds(
        &[Seed::Literal { bytes: b"vault".to_vec() }, Seed::AccountKey { index: 3 }],
        false,
        false,
    )
    .unwrap();
    assert_eq!(metas.len(), 2);
    assert_eq!(metas[0].address_config, whitelist.address_config);
    assert_eq!(metas[0].discriminator, whitelist.discriminator);
    assert_eq!(metas[1].address_config, vault.address_config);
    assert_eq!(
        Seed::unpack_address_config(&metas[1].address_config).unwrap(),
        vec![Seed::Literal { bytes: b"vault".to_vec() }, Seed::AccountKey { index: 3 }]
    );
}

#[test]
fn vault_hook_error_messages() {
    assert_eq!(ErrorCode::NotWhitelisted.message(), "User is not whitelisted");
    assert_eq!(ErrorCode::AdminMismatch.message(), "Admin key mismatch");
    assert_eq!(ErrorCode::MintMismatch.message(), "Mint mismatch");
}

#[test]
fn user_account_holds_its_fields() {
    let account = User { amount: 12, mint: mint(), bump: 3 };
    assert_eq!(account, User { amount: 12, mint: mint(), bump: 3 });
    assert_ne!(account, User { amount: 13, mint: mint(), bump: 3 });
}
