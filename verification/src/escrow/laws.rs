//! What holds of the escrow program on every state and for every input.
use vstd::prelude::*;
use crate::address::Address;
use crate::escrow::error::{ErrorCode, LedgerError};
use crate::escrow::model::{Instruction, LedgerState};
use crate::escrow::state::{Escrow, LOCK_SECONDS};

verus! {

/// After an accepted `make`, the vault holds exactly the deposit, the
/// escrow records the amount asked for and the caller as its maker, it is
/// open and unlocks `LOCK_SECONDS` later; the maker's balance went down by
/// the deposit, and no other balance and no supply changed.
pub proof fn make_opens_funded_escrow(
    s: LedgerState,
    maker: Address,
    mint_a: Address,
    mint_b: Address,
    seed: u64,
    deposit: u64,
    receive: u64,
    now: i64,
)
    requires
        Escrow::lock_fits(now),
        s.make_outcome(maker, mint_a, seed, deposit) is Ok,
    ensures
        ({
            let t = s.make(maker, mint_a, mint_b, seed, deposit, receive, now);
            &&& t.is_open(maker, seed)
            &&& t.vault(maker, seed) == deposit
            &&& t.record(maker, seed).receive == receive
            &&& t.record(maker, seed).maker == maker
            &&& t.record(maker, seed).seed == seed
            &&& t.record(maker, seed).mint_a == mint_a
            &&& t.record(maker, seed).mint_b == mint_b
            &&& t.record(maker, seed).lock_until == now + LOCK_SECONDS
            &&& t.balance(maker, mint_a) == s.balance(maker, mint_a) - deposit
            &&& forall|o: Address, m: Address|
                !(o == maker && m == mint_a) ==> t.balance(o, m) == s.balance(o, m)
            &&& t.supply == s.supply
        }),
{
}

/// A `take` before the unlock time of an open escrow is rejected with
/// `Locked`, whoever the taker is, and a rejected instruction leaves the
/// state, and with it vault and escrow, as it was.
pub proof fn take_is_locked_before_unlock(
    s: LedgerState,
    taker: Address,
    maker: Address,
    seed: u64,
    now: i64,
)
    requires
        s.is_open(maker, seed),
        now < s.record(maker, seed).lock_until,
    ensures
        s.take_outcome(taker, maker, seed, now) == Err::<(), LedgerError>(
            LedgerError::Program(ErrorCode::Locked),
        ),
        s.apply(Instruction::Take { taker, maker, seed, now }) == s,
{
}

/// Once an escrow is closed, by `take` or by `refund`, it stays as it is
/// whatever is submitted afterwards: its address is never open again.
pub proof fn closed_is_final(s: LedgerState, ixs: Seq<Instruction>, maker: Address, seed: u64)
    requires
        s.is_closed(maker, seed),
    ensures
        s.run(ixs).is_closed(maker, seed),
        s.run(ixs).escrows[(maker, seed)] == s.escrows[(maker, seed)],
    decreases ixs.len(),
{
    if ixs.len() > 0 {
        closed_is_final(s, ixs.drop_last(), maker, seed);
    }
}

/// Every instruction against a closed escrow is rejected: `take` and
/// `refund` because no open escrow is found, `make` because the address
/// was used.
pub proof fn closed_rejects_all(
    s: LedgerState,
    maker: Address,
    seed: u64,
    taker: Address,
    mint_a: Address,
    deposit: u64,
    now: i64,
)
    requires
        s.is_closed(maker, seed),
    ensures
        s.take_outcome(taker, maker, seed, now) == Err::<(), LedgerError>(
            LedgerError::AccountNotFound,
        ),
        s.refund_outcome(maker, seed) == Err::<(), LedgerError>(LedgerError::AccountNotFound),
        s.make_outcome(maker, mint_a, seed, deposit) == Err::<(), LedgerError>(
            LedgerError::AccountAlreadyExists,
        ),
{
}

/// While an escrow is open, its record and the amount in its vault are
/// what they were when it was made: whatever is submitted, an escrow that
/// is open afterwards was open before and is unchanged.
pub proof fn open_escrow_is_unchanged(
    s: LedgerState,
    ixs: Seq<Instruction>,
    maker: Address,
    seed: u64,
)
    requires
        s.known(maker, seed),
    ensures
        s.run(ixs).known(maker, seed),
        s.run(ixs).is_open(maker, seed) ==> s.is_open(maker, seed) && s.run(ixs).escrows[(
            maker,
            seed,
        )] == s.escrows[(maker, seed)],
    decreases ixs.len(),
{
    if ixs.len() > 0 {
        open_escrow_is_unchanged(s, ixs.drop_last(), maker, seed);
    }
}

/// A `take` of an open escrow at or after its unlock time, by a taker who
/// holds what the escrow asks, is accepted. It closes the escrow as
/// completed, so that it succeeds once: whatever is submitted afterwards,
/// every later `take` and every `refund` of that escrow is rejected
/// because no open escrow is found.
pub proof fn take_succeeds_once(
    s: LedgerState,
    taker: Address,
    maker: Address,
    seed: u64,
    now: i64,
    later: Seq<Instruction>,
    next_taker: Address,
    next_now: i64,
)
    requires
        s.is_open(maker, seed),
        now >= s.record(maker, seed).lock_until,
        s.balance(taker, s.record(maker, seed).mint_b) >= s.record(maker, seed).receive,
    ensures
        s.take_outcome(taker, maker, seed, now) is Ok,
        ({
            let t = s.take(taker, maker, seed);
            let u = t.run(later);
            &&& t.escrows[(maker, seed)] is Completed
            &&& u.escrows[(maker, seed)] is Completed
            &&& u.take_outcome(next_taker, maker, seed, next_now) == Err::<(), LedgerError>(
                LedgerError::AccountNotFound,
            )
            &&& u.refund_outcome(maker, seed) == Err::<(), LedgerError>(
                LedgerError::AccountNotFound,
            )
        }),
{
    let t = s.take(taker, maker, seed);
    closed_is_final(t, later, maker, seed);
}

/// What an accepted `take` moves: the taker pays the maker exactly what
/// the escrow asks in `mint_b` and receives exactly what the vault holds
/// in `mint_a`; no supply changes.
pub proof fn take_swaps_exact_amounts(
    s: LedgerState,
    taker: Address,
    maker: Address,
    seed: u64,
    now: i64,
)
    requires
        s.take_outcome(taker, maker, seed, now) is Ok,
        taker != maker,
        s.record(maker, seed).mint_a != s.record(maker, seed).mint_b,
    ensures
        ({
            let record = s.record(maker, seed);
            let t = s.take(taker, maker, seed);
            &&& t.balance(taker, record.mint_a) == s.balance(taker, record.mint_a) + s.vault(
                maker,
                seed,
            )
            &&& t.balance(taker, record.mint_b) == s.balance(taker, record.mint_b)
                - record.receive
            &&& t.balance(maker, record.mint_b) == s.balance(maker, record.mint_b)
                + record.receive
            &&& t.balance(maker, record.mint_a) == s.balance(maker, record.mint_a)
            &&& t.supply == s.supply
        }),
{
}

/// A `refund` of an open escrow is accepted at any time. It pays the maker
/// exactly what the vault holds, closes the escrow as refunded, so that
/// nothing is left of record and vault, and touches no other balance;
/// whatever is submitted afterwards, every later `take` and `refund` of
/// that escrow is rejected because no open escrow is found.
pub proof fn refund_pays_vault_and_closes(
    s: LedgerState,
    maker: Address,
    seed: u64,
    later: Seq<Instruction>,
    next_taker: Address,
    next_now: i64,
)
    requires
        s.is_open(maker, seed),
    ensures
        s.refund_outcome(maker, seed) is Ok,
        ({
            let mint_a = s.record(maker, seed).mint_a;
            let t = s.refund(maker, seed);
            let u = t.run(later);
            &&& t.balance(maker, mint_a) == s.balance(maker, mint_a) + s.vault(maker, seed)
            &&& forall|o: Address, m: Address|
                !(o == maker && m == mint_a) ==> t.balance(o, m) == s.balance(o, m)
            &&& t.supply == s.supply
            &&& t.escrows[(maker, seed)] is Refunded
            &&& u.escrows[(maker, seed)] is Refunded
            &&& u.take_outcome(next_taker, maker, seed, next_now) == Err::<(), LedgerError>(
                LedgerError::AccountNotFound,
            )
            &&& u.refund_outcome(maker, seed) == Err::<(), LedgerError>(
                LedgerError::AccountNotFound,
            )
        }),
{
    let t = s.refund(maker, seed);
    closed_is_final(t, later, maker, seed);
}

/// The amount that a `refund` pays back is the amount that was deposited:
/// after an accepted `make`, and whatever else is submitted in between, a
/// `refund` of the escrow while it is still open raises the maker's
/// balance of `mint_a` by exactly `deposit`.
pub proof fn refund_returns_deposit(
    s: LedgerState,
    maker: Address,
    mint_a: Address,
    mint_b: Address,
    seed: u64,
    deposit: u64,
    receive: u64,
    now: i64,
    between: Seq<Instruction>,
)
    requires
        Escrow::lock_fits(now),
        s.make_outcome(maker, mint_a, seed, deposit) is Ok,
        s.make(maker, mint_a, mint_b, seed, deposit, receive, now).run(between).is_open(
            maker,
            seed,
        ),
    ensures
        ({
            let u = s.make(maker, mint_a, mint_b, seed, deposit, receive, now).run(between);
            &&& u.refund_outcome(maker, seed) is Ok
            &&& u.refund(maker, seed).balance(maker, mint_a) == u.balance(maker, mint_a) + deposit
        }),
{
    let t = s.make(maker, mint_a, mint_b, seed, deposit, receive, now);
    open_escrow_is_unchanged(t, between, maker, seed);
}

/// A `make` that is at once refunded leaves every balance and every supply
/// as it was before the `make`.
pub proof fn refund_undoes_make(
    s: LedgerState,
    maker: Address,
    mint_a: Address,
    mint_b: Address,
    seed: u64,
    deposit: u64,
    receive: u64,
    now: i64,
)
    requires
        s.valid(),
        s.make_outcome(maker, mint_a, seed, deposit) is Ok,
    ensures
        ({
            let u = s.make(maker, mint_a, mint_b, seed, deposit, receive, now).refund(maker, seed);
            &&& u.balances == s.balances
            &&& u.supply == s.supply
        }),
{
    let u = s.make(maker, mint_a, mint_b, seed, deposit, receive, now).refund(maker, seed);
    assert(u.balances =~= s.balances);
}

/// Validity is kept by every instruction.
pub proof fn apply_keeps_valid(s: LedgerState, ix: Instruction)
    requires
        s.valid(),
    ensures
        s.apply(ix).valid(),
{
    let t = s.apply(ix);
    assert(t.balances.dom() =~= Set::<(Address, Address)>::full());
    assert(t.supply.dom() =~= Set::<Address>::full());
    assert forall|maker: Address, seed: u64| #[trigger] t.is_open(maker, seed) implies {
        &&& t.record(maker, seed).maker == maker
        &&& t.record(maker, seed).seed == seed
        &&& t.vault(maker, seed) > 0
    } by {
        if s.is_open(maker, seed) {
            assert(s.record(maker, seed).maker == maker);
        }
    }
}

/// Validity is kept by every run.
pub proof fn run_keeps_valid(s: LedgerState, ixs: Seq<Instruction>)
    requires
        s.valid(),
    ensures
        s.run(ixs).valid(),
    decreases ixs.len(),
{
    if ixs.len() > 0 {
        run_keeps_valid(s, ixs.drop_last());
        apply_keeps_valid(s.run(ixs.drop_last()), ixs.last());
    }
}

/// Only minting changes a supply: `make`, `take` and `refund` move tokens
/// and create or destroy none.
pub proof fn only_minting_changes_supply(s: LedgerState, ix: Instruction)
    requires
        !(ix is MintTo),
    ensures
        s.apply(ix).supply == s.supply,
{
}

} // verus!
