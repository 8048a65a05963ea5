use anchor_programs::address::Address;
use anchor_programs::vrf::{UserAccount, VrfCallback};

fn accounts() -> VrfCallback {
    VrfCallback {
        vrf_program_identity: Address::new([9u8; 32]),
        user_account: UserAccount { user: Address::new([1u8; 32]), data: 5, bump: 254 },
    }
}

#[test]
fn callback_stores_number_drawn_from_every_fourth_byte() {
    let mut randomness = [0u8; 32];
    for i in 0..32 {
        randomness[i] = i as u8;
    }
    let mut accounts = accounts();
    accounts.callback(randomness);
    assert_eq!(accounts.user_account.data, 0x1c18_1410_0c08_0400);
    assert_eq!(accounts.user_account.user, Address::new([1u8; 32]));
    assert_eq!(accounts.user_account.bump, 254);
    assert_eq!(accounts.vrf_program_identity, Address::new([9u8; 32]));
}

#[test]
fn callback_ignores_the_other_bytes() {
    let mut randomness = [0xffu8; 32];
    for i in 0..8 {
        randomness[4 * i] = 0;
    }
    let mut accounts = accounts();
    accounts.callback(randomness);
    assert_eq!(accounts.user_account.data, 0);
    randomness[0] = 1;
    accounts.callback(randomness);
    assert_eq!(accounts.user_account.data, 1);
    randomness[28] = 0x80;
    accounts.callback(randomness);
    assert_eq!(accounts.user_account.data, 0x8000_0000_0000_0001);
}

#[test]
fn callback_agrees_with_the_oracle_sdk() {
    let mut randomness = [0u8; 32];
    for i in 0..32 {
        randomness[i] = (i as u8).wrapping_mul(37).wrapping_add(11);
    }
    let mut accounts = accounts();
    accounts.callback(randomness);
    assert_eq!(accounts.user_account.data, ephemeral_vrf_sdk::rnd::random_u64(&randomness));
}
