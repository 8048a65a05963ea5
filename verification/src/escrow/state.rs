//! The escrow record and the rule that guards its completion.
use vstd::prelude::*;
use crate::address::Address;
use crate::escrow::error::ErrorCode;
use crate::pda::{found_view, program_address, seed_of, try_find_program_address};
use vstd::bytes::{spec_u64_to_le_bytes, u64_to_le_bytes};

verus! {

/// Seconds between the creation of an escrow and the first moment at which
/// it may be taken: five days.
pub const LOCK_SECONDS: i64 = 432_000;

/// The terms of one swap offered by a maker.
#[derive(Clone, Copy, Debug, PartialEq, Eq)]
pub struct Escrow {
    /// Chosen by the maker, so that one maker can hold several escrows.
    pub seed: u64,
    /// Who deposited and who is paid.
    pub maker: Address,
    /// The mint of the deposited tokens.
    pub mint_a: Address,
    /// The mint of the tokens asked for in return.
    pub mint_b: Address,
    /// How much of `mint_b` the maker asks for.
    pub receive: u64,
    /// The first timestamp at which the swap may be completed.
    pub lock_until: i64,
}

impl Escrow {
    /// The record of an escrow opened at time `now`.
    pub open spec fn spec_new(
        seed: u64,
        maker: Address,
        mint_a: Address,
        mint_b: Address,
        receive: u64,
        now: i64,
    ) -> Escrow {
        Escrow { seed, maker, mint_a, mint_b, receive, lock_until: (now + LOCK_SECONDS) as i64 }
    }

    /// Whether an escrow opened at `now` has an unlock time that fits a
    /// timestamp.
    pub open spec fn lock_fits(now: i64) -> bool {
        now + LOCK_SECONDS <= i64::MAX
    }

    /// Builds the record of an escrow opened at time `now`; it unlocks
    /// `LOCK_SECONDS` later.
    pub fn new(
        seed: u64,
        maker: Address,
        mint_a: Address,
        mint_b: Address,
        receive: u64,
        now: i64,
    ) -> (r: Escrow)
        requires
            Escrow::lock_fits(now),
        ensures
            r == Escrow::spec_new(seed, maker, mint_a, mint_b, receive, now),
            r.seed == seed,
            r.maker == maker,
            r.mint_a == mint_a,
            r.mint_b == mint_b,
            r.receive == receive,
            r.lock_until == now + LOCK_SECONDS,
    {
        Escrow { seed, maker, mint_a, mint_b, receive, lock_until: now + LOCK_SECONDS }
    }

    /// The seeds of the address of the escrow that `maker` makes under
    /// `seed`: the bytes of the word "escrow", the maker's address, and the
    /// seed in little-endian order.
    pub open spec fn spec_seeds(maker: Address, seed: u64) -> Seq<Seq<u8>> {
        seq![seq![0x65u8, 0x73u8, 0x63u8, 0x72u8, 0x6fu8, 0x77u8], maker@, spec_u64_to_le_bytes(seed)]
    }

    /// Builds the seeds of the address of the escrow that `maker` makes
    /// under `seed`.
    pub fn seeds(maker: &Address, seed: u64) -> (r: Vec<Vec<u8>>)
        ensures
            r.deep_view() == Escrow::spec_seeds(*maker, seed),
    {
        let word: [u8; 6] = [0x65u8, 0x73u8, 0x63u8, 0x72u8, 0x6fu8, 0x77u8];
        let mut out: Vec<Vec<u8>> = Vec::new();
        out.push(seed_of(&word));
        out.push(seed_of(&maker.bytes));
        out.push(u64_to_le_bytes(seed));
        proof {
            assert(out.deep_view() =~~= Escrow::spec_seeds(*maker, seed));
        }
        out
    }

    /// The address that the program `program_id` owns for the escrow that
    /// `maker` makes under `seed`, with its bump seed. This address is the
    /// escrow's own and the authority over its vault.
    pub fn find_address(maker: &Address, seed: u64, program_id: &Address) -> (r: Option<
        (Address, u8),
    >)
        ensures
            found_view(r) == program_address(Escrow::spec_seeds(*maker, seed), program_id@),
    {
        let seeds = Escrow::seeds(maker, seed);
        try_find_program_address(&seeds, program_id)
    }

    /// Whether the swap may be completed at time `now`.
    pub open spec fn unlocked_at(self, now: i64) -> bool {
        now >= self.lock_until
    }

    /// The time check of `take`: passes from the unlock time on, and fails
    /// with `Locked` before it.
    pub fn check_unlocked(&self, now: i64) -> (r: Result<(), ErrorCode>)
        ensures
            r is Ok <==> self.unlocked_at(now),
            r is Err ==> r == Err::<(), ErrorCode>(ErrorCode::Locked),
    {
        if now < self.lock_until {
            Err(ErrorCode::Locked)
        } else {
            Ok(())
        }
    }
}

/// Where the escrow that one maker made under one seed stands. An escrow
/// is made open and is closed once, by `take` or by `refund`; nothing is
/// left of its record and its vault after that, only how it was closed.
#[derive(Clone, Copy, Debug, PartialEq, Eq)]
pub enum EscrowState {
    /// Created and funded, and neither taken nor refunded yet.
    Open {
        /// The terms of the swap.
        record: Escrow,
        /// The amount of `mint_a` that the vault holds.
        vault: u64,
    },
    /// Closed by a taker, who paid the maker and received the deposit.
    Completed,
    /// Closed by the maker, who took the deposit back.
    Refunded,
}

impl EscrowState {
    /// Whether the escrow is open.
    pub fn is_open(&self) -> (r: bool)
        ensures
            r == (*self is Open),
    {
        match self {
            EscrowState::Open { .. } => true,
            _ => false,
        }
    }

    /// The terms of the swap while the escrow is open.
    pub fn record(&self) -> (r: Option<Escrow>)
        ensures
            r == if *self is Open {
                Some(self->record)
            } else {
                None
            },
    {
        match self {
            EscrowState::Open { record, .. } => Some(*record),
            _ => None,
        }
    }

    /// What the vault holds: the deposit while the escrow is open, and
    /// nothing once it is closed.
    pub fn vault(&self) -> (r: u64)
        ensures
            r == if *self is Open {
                self->vault
            } else {
                0
            },
    {
        match self {
            EscrowState::Open { vault, .. } => *vault,
            _ => 0,
        }
    }
}

} // verus!
