use anchor_lang::prelude::Pubkey;
use anchor_programs::address::Address;
use anchor_programs::whitelist::{
    add_to_whitelist, remove_from_whitelist, AddToWhitelist, AddToWhitelistBumps,
    InitializeWhitelist, InitializeWhitelistBumps, RemoveFromWhitelist, Whitelist, WhitelistUsers,
};

const PROGRAM_ID: [u8; 32] = [8u8; 32];

fn admin() -> Address {
    Address::new([1u8; 32])
}

fn user() -> Address {
    Address::new([2u8; 32])
}

fn blank() -> Address {
    Address::new([0u8; 32])
}

#[test]
fn initialize_whitelist_records_the_admin() {
    let mut accounts = InitializeWhitelist {
        admin: admin(),
        whitelist_pda: Whitelist { user: blank(), bump: 0 },
    };
    accounts.initialize_whitelist(InitializeWhitelistBumps { whitelist_pda: 254 });
    assert_eq!(accounts.whitelist_pda, Whitelist { user: admin(), bump: 254 });
    assert_eq!(accounts.admin, admin());
}

#[test]
fn add_to_whitelist_fills_the_entry() {
    let mut accounts = AddToWhitelist {
        admin: admin(),
        whitelist_pda: Whitelist { user: admin(), bump: 254 },
        user: user(),
        whitelist_users: WhitelistUsers { key: blank(), bump: 0 },
    };
    add_to_whitelist(&mut accounts, &AddToWhitelistBumps { whitelist_users: 253 });
    assert_eq!(accounts.whitelist_users, WhitelistUsers { key: user(), bump: 253 });
    assert_eq!(accounts.whitelist_pda, Whitelist { user: admin(), bump: 254 });
    assert_eq!(accounts.user, user());
    assert_eq!(accounts.admin, admin());
}

#[test]
fn remove_from_whitelist_closes_the_entry() {
    let mut accounts = RemoveFromWhitelist {
        admin: admin(),
        whitelist_pda: Whitelist { user: admin(), bump: 254 },
        user: user(),
        whitelist_users: Some(WhitelistUsers { key: user(), bump: 253 }),
    };
    remove_from_whitelist(&mut accounts);
    assert_eq!(accounts.whitelist_users, None);
    assert_eq!(accounts.whitelist_pda, Whitelist { user: admin(), bump: 254 });
    assert_eq!(accounts.user, user());
    remove_from_whitelist(&mut accounts);
    assert_eq!(accounts.whitelist_users, None);
}

#[test]
fn whitelist_addresses_follow_their_seeds() {
    let program = Address::new(PROGRAM_ID);
    let id = Pubkey::new_from_array(PROGRAM_ID);
    assert_eq!(Whitelist::seeds(), vec![b"whitelist".to_vec()]);
    assert_eq!(
        WhitelistUsers::seeds(&user()),
        vec![b"whitelist_users".to_vec(), vec![2u8; 32]]
    );
    let (key, bump) = Pubkey::find_program_address(&[b"whitelist"], &id);
    assert_eq!(Whitelist::find_address(&program), Some((Address::new(key.to_bytes()), bump)));
    let (key, bump) = Pubkey::find_program_address(&[b"whitelist_users", &[2u8; 32]], &id);
    assert_eq!(
        WhitelistUsers::find_address(&user(), &program),
        Some((Address::new(key.to_bytes()), bump))
    );
    assert_ne!(
        WhitelistUsers::find_address(&user(), &program),
        WhitelistUsers::find_address(&admin(), &program)
    );
}
