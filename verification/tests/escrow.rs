use anchor_lang::prelude::Pubkey;
use anchor_programs::address::Address;
use anchor_programs::escrow::error::{ErrorCode, LedgerError};
use anchor_programs::escrow::layout::RECORD_BYTES;
use anchor_programs::escrow::ledger::Ledger;
use anchor_programs::escrow::model::Instruction;
use anchor_programs::escrow::state::{Escrow, EscrowState, LOCK_SECONDS};

const PROGRAM_ID: [u8; 32] = [7u8; 32];
const START: i64 = 1_700_000_000;

fn maker() -> Address {
    Address::new([1u8; 32])
}

fn taker() -> Address {
    Address::new([2u8; 32])
}

fn mint_a() -> Address {
    Address::new([10u8; 32])
}

fn mint_b() -> Address {
    Address::new([11u8; 32])
}

/// A ledger in which the maker holds ten tokens (six decimals) of mint A.
fn setup() -> Ledger {
    let mut ledger = Ledger::new();
    ledger.mint_to(maker(), mint_a(), 10 * 1000000).unwrap();
    ledger
}

#[test]
fn test_make() {
    let mut ledger = setup();
    let seed = 123u64;
    let escrow_pda = Pubkey::find_program_address(
        &[b"escrow", maker().to_bytes().as_ref(), seed.to_le_bytes().as_ref()],
        &Pubkey::new_from_array(PROGRAM_ID),
    )
    .0;

    ledger
        .make(maker(), mint_a(), mint_b(), seed, 10 * 1000000, 10 * 1000000, START)
        .unwrap();

    let state = ledger.escrow(&maker(), seed).unwrap();
    assert_eq!(state.vault(), 10 * 1000000);
    let (vault_owner, _bump) =
        Escrow::find_address(&maker(), seed, &Address::new(PROGRAM_ID)).unwrap();
    assert_eq!(vault_owner.to_bytes(), escrow_pda.to_bytes());
    let escrow_data = state.record().unwrap();
    assert_eq!(escrow_data.mint_a, mint_a());

    assert_eq!(escrow_data.seed, seed);
    assert_eq!(escrow_data.maker, maker());
    assert_eq!(escrow_data.mint_a, mint_a());
    assert_eq!(escrow_data.mint_b, mint_b());
    assert_eq!(escrow_data.receive, 10 * 1000000);
}

#[test]
fn test_take() {
    let mut ledger = setup();
    let seed = 123u64;
    ledger
        .make(maker(), mint_a(), mint_b(), seed, 10 * 1000000, 10 * 1000000, START)
        .unwrap();
    ledger.mint_to(taker(), mint_b(), 10 * 1000000).unwrap();

    let five_days_and_a_second = 5 * 24 * 60 * 60 + 1;
    ledger.take(taker(), maker(), seed, START + five_days_and_a_second).unwrap();

    assert_eq!(ledger.balance(&maker(), &mint_a()), 0);
    assert_eq!(ledger.balance(&maker(), &mint_b()), 10 * 1000000);
    assert_eq!(ledger.balance(&taker(), &mint_a()), 10 * 1000000);
    assert_eq!(ledger.balance(&taker(), &mint_b()), 0);
}

#[test]
fn test_refund() {
    let mut ledger = setup();
    let seed = 123u64;
    ledger
        .make(maker(), mint_a(), mint_b(), seed, 10 * 1000000, 10 * 1000000, START)
        .unwrap();
    let state = ledger.escrow(&maker(), seed).unwrap();
    assert_eq!(state.vault(), 10 * 1000000);
    assert_eq!(state.record().unwrap().mint_a, mint_a());
    ledger.mint_to(taker(), mint_b(), 10 * 1000000).unwrap();

    ledger.refund(maker(), seed).unwrap();

    assert_eq!(
        ledger.balance(&maker(), &mint_a()),
        10 * 1000000,
        "maker must recieve deposit amount back"
    );
    let closed = ledger.escrow(&maker(), seed).unwrap();
    assert!(
        closed.record().is_none() && closed.vault().eq(&0),
        "escrow account must be closed"
    );
    assert_eq!(closed, EscrowState::Refunded);
}

#[test]
fn make_moves_deposit_into_vault() {
    let mut ledger = setup();
    assert_eq!(ledger.make(maker(), mint_a(), mint_b(), 9, 4_000_000, 77, START), Ok(()));
    assert_eq!(ledger.balance(&maker(), &mint_a()), 6_000_000);
    assert_eq!(ledger.supply(&mint_a()), 10_000_000);
    assert_eq!(
        ledger.escrow(&maker(), 9),
        Some(EscrowState::Open {
            record: Escrow {
                seed: 9,
                maker: maker(),
                mint_a: mint_a(),
                mint_b: mint_b(),
                receive: 77,
                lock_until: START + 432_000,
            },
            vault: 4_000_000,
        })
    );
}

#[test]
fn lock_is_five_days() {
    assert_eq!(LOCK_SECONDS, 5 * 24 * 60 * 60);
    let record = Escrow::new(1, maker(), mint_a(), mint_b(), 5, 100);
    assert_eq!(record.lock_until, 432_100);
    assert_eq!(record.check_unlocked(432_099), Err(ErrorCode::Locked));
    assert_eq!(record.check_unlocked(432_100), Ok(()));
    assert_eq!(record.check_unlocked(i64::MAX), Ok(()));
}

#[test]
fn make_rejects_used_seed() {
    let mut ledger = setup();
    ledger.make(maker(), mint_a(), mint_b(), 1, 1_000_000, 5, START).unwrap();
    assert_eq!(
        ledger.make(maker(), mint_a(), mint_b(), 1, 1_000_000, 5, START),
        Err(LedgerError::AccountAlreadyExists)
    );
    assert_eq!(ledger.balance(&maker(), &mint_a()), 9_000_000);
    // Another seed of the same maker, and the same seed of another maker, are free.
    assert_eq!(ledger.make(maker(), mint_a(), mint_b(), 2, 1_000_000, 5, START), Ok(()));
    ledger.mint_to(taker(), mint_a(), 3).unwrap();
    assert_eq!(ledger.make(taker(), mint_a(), mint_b(), 1, 3, 5, START), Ok(()));
}

#[test]
fn make_rejects_insufficient_balance() {
    let mut ledger = setup();
    assert_eq!(
        ledger.make(maker(), mint_a(), mint_b(), 1, 10_000_001, 5, START),
        Err(LedgerError::InsufficientFunds)
    );
    assert_eq!(ledger.escrow(&maker(), 1), None);
    assert_eq!(ledger.balance(&maker(), &mint_a()), 10_000_000);
    // Tokens of another mint do not count.
    assert_eq!(
        ledger.make(maker(), mint_b(), mint_a(), 1, 1, 5, START),
        Err(LedgerError::InsufficientFunds)
    );
}

#[test]
fn take_before_unlock_is_locked_and_changes_nothing() {
    let mut ledger = setup();
    ledger.make(maker(), mint_a(), mint_b(), 5, 10_000_000, 10_000_000, START).unwrap();
    ledger.mint_to(taker(), mint_b(), 10_000_000).unwrap();
    let before = ledger.escrow(&maker(), 5);

    assert_eq!(
        ledger.take(taker(), maker(), 5, START),
        Err(LedgerError::Program(ErrorCode::Locked))
    );
    assert_eq!(
        ledger.take(taker(), maker(), 5, START + LOCK_SECONDS - 1),
        Err(LedgerError::Program(ErrorCode::Locked))
    );
    assert_eq!(ledger.escrow(&maker(), 5), before);
    assert_eq!(ledger.balance(&taker(), &mint_b()), 10_000_000);
    assert_eq!(ledger.balance(&taker(), &mint_a()), 0);
    assert_eq!(ledger.balance(&maker(), &mint_b()), 0);

    // At the unlock time itself the swap goes through.
    assert_eq!(ledger.take(taker(), maker(), 5, START + LOCK_SECONDS), Ok(()));
}

#[test]
fn take_succeeds_exactly_once() {
    let mut ledger = setup();
    ledger.make(maker(), mint_a(), mint_b(), 5, 10_000_000, 2_000_000, START).unwrap();
    ledger.mint_to(taker(), mint_b(), 5_000_000).unwrap();
    let later = START + LOCK_SECONDS + 1;

    assert_eq!(ledger.take(taker(), maker(), 5, later), Ok(()));
    assert_eq!(ledger.balance(&taker(), &mint_b()), 3_000_000);
    assert_eq!(ledger.balance(&maker(), &mint_b()), 2_000_000);
    assert_eq!(ledger.balance(&taker(), &mint_a()), 10_000_000);
    let closed = ledger.escrow(&maker(), 5).unwrap();
    assert_eq!(closed, EscrowState::Completed);
    assert!(!closed.is_open());
    assert_eq!(closed.vault(), 0);
    assert_eq!(closed.record(), None);

    assert_eq!(ledger.take(taker(), maker(), 5, later), Err(LedgerError::AccountNotFound));
    assert_eq!(ledger.refund(maker(), 5), Err(LedgerError::AccountNotFound));
    assert_eq!(
        ledger.make(maker(), mint_a(), mint_b(), 5, 1, 1, later),
        Err(LedgerError::AccountAlreadyExists)
    );
    assert_eq!(ledger.balance(&taker(), &mint_a()), 10_000_000);
}

#[test]
fn take_needs_funds() {
    let mut ledger = setup();
    ledger.make(maker(), mint_a(), mint_b(), 5, 10_000_000, 2_000_000, START).unwrap();
    ledger.mint_to(taker(), mint_b(), 1_999_999).unwrap();
    let later = START + LOCK_SECONDS;
    assert_eq!(ledger.take(taker(), maker(), 5, later), Err(LedgerError::InsufficientFunds));
    assert!(ledger.escrow(&maker(), 5).unwrap().is_open());
    assert_eq!(ledger.balance(&taker(), &mint_b()), 1_999_999);
    ledger.mint_to(taker(), mint_b(), 1).unwrap();
    assert_eq!(ledger.take(taker(), maker(), 5, later), Ok(()));
    assert_eq!(ledger.balance(&taker(), &mint_b()), 0);
}

#[test]
fn take_and_refund_of_unknown_escrow_fail() {
    let mut ledger = setup();
    assert_eq!(ledger.take(taker(), maker(), 5, START), Err(LedgerError::AccountNotFound));
    assert_eq!(ledger.refund(maker(), 5), Err(LedgerError::AccountNotFound));
    ledger.make(maker(), mint_a(), mint_b(), 5, 1, 1, START).unwrap();
    // The escrow belongs to its maker: nobody else can refund it.
    assert_eq!(ledger.refund(taker(), 5), Err(LedgerError::AccountNotFound));
    assert_eq!(ledger.refund(maker(), 6), Err(LedgerError::AccountNotFound));
}

#[test]
fn refund_ignores_the_lock_and_closes() {
    let mut ledger = setup();
    ledger.make(maker(), mint_a(), mint_b(), 5, 7_000_000, 1, START).unwrap();
    assert_eq!(ledger.balance(&maker(), &mint_a()), 3_000_000);
    assert_eq!(ledger.refund(maker(), 5), Ok(()));
    assert_eq!(ledger.balance(&maker(), &mint_a()), 10_000_000);
    assert_eq!(ledger.refund(maker(), 5), Err(LedgerError::AccountNotFound));
    ledger.mint_to(taker(), mint_b(), 1).unwrap();
    assert_eq!(
        ledger.take(taker(), maker(), 5, START + LOCK_SECONDS),
        Err(LedgerError::AccountNotFound)
    );

    // After the unlock time a refund is as good as before it.
    ledger.make(maker(), mint_a(), mint_b(), 6, 7_000_000, 1, START).unwrap();
    assert_eq!(ledger.refund(maker(), 6), Ok(()));
    assert_eq!(ledger.balance(&maker(), &mint_a()), 10_000_000);
    assert_eq!(ledger.supply(&mint_a()), 10_000_000);
}

#[test]
fn maker_can_take_own_escrow_in_one_mint() {
    let mut ledger = setup();
    ledger.make(maker(), mint_a(), mint_a(), 5, 4_000_000, 6_000_000, START).unwrap();
    assert_eq!(ledger.take(maker(), maker(), 5, START + LOCK_SECONDS), Ok(()));
    assert_eq!(ledger.balance(&maker(), &mint_a()), 10_000_000);
    assert_eq!(ledger.supply(&mint_a()), 10_000_000);
}

#[test]
fn mint_to_stops_at_the_largest_supply() {
    let mut ledger = Ledger::new();
    assert_eq!(ledger.supply(&mint_a()), 0);
    assert_eq!(ledger.mint_to(maker(), mint_a(), u64::MAX - 1), Ok(()));
    assert_eq!(ledger.mint_to(taker(), mint_a(), 2), Err(LedgerError::SupplyOverflow));
    assert_eq!(ledger.balance(&taker(), &mint_a()), 0);
    assert_eq!(ledger.mint_to(taker(), mint_a(), 1), Ok(()));
    assert_eq!(ledger.supply(&mint_a()), u64::MAX);
    assert_eq!(ledger.mint_to(taker(), mint_b(), u64::MAX), Ok(()));
    // Tokens in a vault still count towards the supply.
    ledger.make(maker(), mint_a(), mint_b(), 1, u64::MAX - 1, 1, START).unwrap();
    assert_eq!(ledger.balance(&maker(), &mint_a()), 0);
    assert_eq!(ledger.mint_to(maker(), mint_a(), 1), Err(LedgerError::SupplyOverflow));
    assert_eq!(ledger.take(taker(), maker(), 1, START + LOCK_SECONDS), Ok(()));
    assert_eq!(ledger.balance(&taker(), &mint_a()), u64::MAX);
}

#[test]
fn escrow_address_depends_on_maker_and_seed() {
    let program = Address::new(PROGRAM_ID);
    let (a, bump) = Escrow::find_address(&maker(), 123, &program).unwrap();
    let (b, _) = Escrow::find_address(&maker(), 124, &program).unwrap();
    let (c, _) = Escrow::find_address(&taker(), 123, &program).unwrap();
    assert_ne!(a, b);
    assert_ne!(a, c);
    assert_ne!(a, maker());
    assert_eq!(Escrow::find_address(&maker(), 123, &program), Some((a, bump)));
    assert_eq!(
        Escrow::seeds(&maker(), 0x0102030405060708),
        vec![b"escrow".to_vec(), vec![1u8; 32], vec![8u8, 7, 6, 5, 4, 3, 2, 1]]
    );
}

#[test]
fn error_messages() {
    assert_eq!(ErrorCode::Locked.message(), "Too early to take from the escrow");
}

#[test]
fn addresses_compare_by_bytes() {
    let mut bytes = [0u8; 32];
    let zero = Address::new(bytes);
    bytes[31] = 1;
    let one = Address::new(bytes);
    assert!(zero != one);
    assert!(one == Address::new(bytes));
    assert!(!zero.same(&one));
    assert_eq!(one.to_bytes(), bytes);
}

#[test]
fn record_layout_is_fixed() {
    let record = Escrow {
        seed: 0x0102030405060708,
        maker: maker(),
        mint_a: mint_a(),
        mint_b: mint_b(),
        receive: 10_000_000,
        lock_until: -2,
    };
    let bytes = record.pack();
    assert_eq!(RECORD_BYTES, 8 + 32 + 32 + 32 + 8 + 8);
    assert_eq!(bytes.len(), RECORD_BYTES);
    assert_eq!(&bytes[0..8], &[8u8, 7, 6, 5, 4, 3, 2, 1]);
    assert_eq!(&bytes[8..40], &[1u8; 32]);
    assert_eq!(&bytes[40..72], &[10u8; 32]);
    assert_eq!(&bytes[72..104], &[11u8; 32]);
    assert_eq!(&bytes[104..112], &10_000_000u64.to_le_bytes());
    assert_eq!(&bytes[112..120], &[0xfeu8, 0xff, 0xff, 0xff, 0xff, 0xff, 0xff, 0xff]);
    assert_eq!(Escrow::unpack(&bytes), Some(record));
}

#[test]
fn unpack_wants_the_exact_length() {
    let record = Escrow::new(5, maker(), mint_a(), mint_b(), 6, START);
    let mut bytes = record.pack();
    assert_eq!(Escrow::unpack(&bytes[..RECORD_BYTES - 1]), None);
    assert_eq!(Escrow::unpack(&[]), None);
    bytes.push(0);
    assert_eq!(Escrow::unpack(&bytes), None);
    bytes.pop();
    bytes[0] = 6;
    assert_eq!(
        Escrow::unpack(&bytes),
        Some(Escrow::new(6, maker(), mint_a(), mint_b(), 6, START))
    );
    let extremes = Escrow {
        seed: u64::MAX,
        maker: Address::new([255u8; 32]),
        mint_a: Address::new([0u8; 32]),
        mint_b: Address::new([128u8; 32]),
        receive: 0,
        lock_until: i64::MIN,
    };
    assert_eq!(Escrow::unpack(&extremes.pack()), Some(extremes));
}

#[test]
fn execute_runs_each_instruction() {
    let mut ledger = Ledger::new();
    let make = Instruction::Make {
        maker: maker(),
        mint_a: mint_a(),
        mint_b: mint_b(),
        seed: 1,
        deposit: 10,
        receive: 20,
        now: START,
    };
    assert_eq!(ledger.execute(make), Err(LedgerError::InsufficientFunds));
    assert_eq!(
        ledger.execute(Instruction::MintTo { owner: maker(), mint: mint_a(), amount: 10 }),
        Ok(())
    );
    assert_eq!(
        ledger.execute(Instruction::MintTo { owner: taker(), mint: mint_b(), amount: 20 }),
        Ok(())
    );
    assert_eq!(ledger.execute(make), Ok(()));
    assert_eq!(ledger.execute(make), Err(LedgerError::AccountAlreadyExists));
    let take =
        Instruction::Take { taker: taker(), maker: maker(), seed: 1, now: START + LOCK_SECONDS };
    let early = Instruction::Take { taker: taker(), maker: maker(), seed: 1, now: START };
    assert_eq!(ledger.execute(early), Err(LedgerError::Program(ErrorCode::Locked)));
    assert_eq!(ledger.execute(take), Ok(()));
    assert_eq!(ledger.execute(take), Err(LedgerError::AccountNotFound));
    assert_eq!(
        ledger.execute(Instruction::Refund { maker: maker(), seed: 1 }),
        Err(LedgerError::AccountNotFound)
    );
    assert_eq!(ledger.balance(&taker(), &mint_a()), 10);
    assert_eq!(ledger.balance(&maker(), &mint_b()), 20);
}

#[test]
fn execute_rejects_make_outside_its_domain() {
    let mut ledger = setup();
    let zero = Instruction::Make {
        maker: maker(),
        mint_a: mint_a(),
        mint_b: mint_b(),
        seed: 1,
        deposit: 0,
        receive: 20,
        now: START,
    };
    assert_eq!(ledger.execute(zero), Err(LedgerError::InvalidArgument));
    let too_late = Instruction::Make {
        maker: maker(),
        mint_a: mint_a(),
        mint_b: mint_b(),
        seed: 1,
        deposit: 5,
        receive: 20,
        now: i64::MAX - LOCK_SECONDS + 1,
    };
    assert_eq!(ledger.execute(too_late), Err(LedgerError::InvalidArgument));
    assert_eq!(ledger.escrow(&maker(), 1), None);
    let latest = Instruction::Make {
        maker: maker(),
        mint_a: mint_a(),
        mint_b: mint_b(),
        seed: 1,
        deposit: 5,
        receive: 20,
        now: i64::MAX - LOCK_SECONDS,
    };
    assert_eq!(ledger.execute(latest), Ok(()));
    assert_eq!(ledger.escrow(&maker(), 1).unwrap().record().unwrap().lock_until, i64::MAX);
    assert_eq!(
        ledger.execute(Instruction::Refund { maker: maker(), seed: 1 }),
        Ok(())
    );
    assert_eq!(ledger.balance(&maker(), &mint_a()), 10_000_000);
}
