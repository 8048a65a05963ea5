//! The ledger: token accounts and escrows in one place, and the
//! instructions `make`, `take` and `refund` that move tokens between them.
use vstd::prelude::*;
use crate::address::Address;
use crate::escrow::accounts::{
    account_sum, balance_in, balance_of, credit, debit, distinct, lemma_balance_bounded,
    total_held, TokenAccount,
};
use crate::escrow::book::{
    all_sound, entry_in, filed_once, find_entry, has_entry, is_entry_at, lemma_entry_at,
    lemma_file, lemma_restate, lemma_vault_bounded, total_locked, vault_sum, Slot,
};
use crate::escrow::error::{ErrorCode, LedgerError};
use crate::escrow::model::{Instruction, LedgerState};
use crate::escrow::state::{Escrow, EscrowState, LOCK_SECONDS};

verus! {

/// The state that a list of accounts and a book of escrows stand for.
pub(crate) open spec fn state_of(accounts: Seq<TokenAccount>, escrows: Seq<Slot>) -> LedgerState {
    LedgerState {
        balances: Map::total(|k: (Address, Address)| balance_in(accounts, k.0, k.1)),
        supply: Map::total(|m: Address| account_sum(accounts, m) + vault_sum(escrows, m)),
        escrows: Map::new(
            |k: (Address, u64)| has_entry(escrows, k.0, k.1),
            |k: (Address, u64)| entry_in(escrows, k.0, k.1),
        ),
    }
}

/// What the ledger keeps true of its lists: no account and no escrow is
/// filed twice, every open escrow is filed under its own maker and seed
/// with a funded vault, and the supply of every mint fits in `u64`.
pub(crate) open spec fn consistent(accounts: Seq<TokenAccount>, escrows: Seq<Slot>) -> bool {
    &&& distinct(accounts)
    &&& filed_once(escrows)
    &&& all_sound(escrows)
    &&& forall|m: Address| #[trigger] account_sum(accounts, m) + vault_sum(escrows, m) <= u64::MAX
}

/// Consistent lists stand for a valid and solvent state.
pub(crate) proof fn lemma_state_valid(accounts: Seq<TokenAccount>, escrows: Seq<Slot>)
    requires
        consistent(accounts, escrows),
    ensures
        state_of(accounts, escrows).valid(),
        state_of(accounts, escrows).solvent(),
{
    let s = state_of(accounts, escrows);
    assert(s.balances.dom() =~= Set::<(Address, Address)>::full());
    assert(s.supply.dom() =~= Set::<Address>::full());
    assert forall|owner: Address, mint: Address| #[trigger]
        s.balances[(owner, mint)] <= s.supply[mint] by {
        lemma_balance_bounded(accounts, owner, mint);
    }
    assert forall|maker: Address, seed: u64| #[trigger] s.is_open(maker, seed) implies {
        &&& s.record(maker, seed).maker == maker
        &&& s.record(maker, seed).seed == seed
        &&& s.vault(maker, seed) > 0
        &&& s.vault(maker, seed) <= s.supply[s.record(maker, seed).mint_a]
    } by {
        let i = choose|i: int| is_entry_at(escrows, maker, seed, i);
        lemma_vault_bounded(escrows, i);
    }
}

/// Token accounts and escrows, with the instructions of the escrow program.
pub struct Ledger {
    accounts: Vec<TokenAccount>,
    escrows: Vec<Slot>,
}

impl View for Ledger {
    type V = LedgerState;

    closed spec fn view(&self) -> LedgerState {
        state_of(self.accounts@, self.escrows@)
    }
}

impl Ledger {
    #[verifier::type_invariant]
    spec fn inv(self) -> bool {
        consistent(self.accounts@, self.escrows@)
    }

    /// A ledger without tokens and without escrows.
    pub fn new() -> (r: Ledger)
        ensures
            r@ == LedgerState::empty(),
            r@.valid(),
            r@.solvent(),
    {
        let r = Ledger { accounts: Vec::new(), escrows: Vec::new() };
        proof {
            lemma_state_valid(r.accounts@, r.escrows@);
            assert(r@ =~= LedgerState::empty());
        }
        r
    }

    /// What `owner` holds of `mint`.
    pub fn balance(&self, owner: &Address, mint: &Address) -> (r: u64)
        ensures
            r == self@.balance(*owner, *mint),
    {
        proof {
            use_type_invariant(self);
        }
        balance_of(&self.accounts, owner, mint)
    }

    /// How many tokens of `mint` exist, in accounts and vaults together.
    pub fn supply(&self, mint: &Address) -> (r: u64)
        ensures
            r == self@.supply_of(*mint),
    {
        proof {
            use_type_invariant(self);
            assert(account_sum(self.accounts@, *mint) + vault_sum(self.escrows@, *mint) <= u64::MAX);
        }
        total_held(&self.accounts, mint) + total_locked(&self.escrows, mint)
    }

    /// Where the escrow that `maker` made under `seed` stands, or `None`
    /// where the maker never made one under that seed.
    pub fn escrow(&self, maker: &Address, seed: u64) -> (r: Option<EscrowState>)
        ensures
            r == if self@.known(*maker, seed) {
                Some(self@.escrows[(*maker, seed)])
            } else {
                None
            },
    {
        proof {
            use_type_invariant(self);
        }
        match find_entry(&self.escrows, maker, seed) {
            Some(i) => {
                proof {
                    lemma_entry_at(self.escrows@, i as int);
                }
                Some(self.escrows[i].state)
            },
            None => None,
        }
    }

    /// Issues `amount` new tokens of `mint` to `owner`. Fails, and changes
    /// nothing, when the supply of `mint` would pass `u64::MAX`.
    pub fn mint_to(&mut self, owner: Address, mint: Address, amount: u64) -> (r: Result<
        (),
        LedgerError,
    >)
        ensures
            r == old(self)@.mint_to_outcome(mint, amount),
            r is Ok ==> final(self)@ == old(self)@.mint_to(owner, mint, amount),
            r is Err ==> final(self)@ == old(self)@,
            final(self)@.valid(),
            final(self)@.solvent(),
    {
        proof {
            use_type_invariant(&*self);
            lemma_state_valid(self.accounts@, self.escrows@);
        }
        let supply = self.supply(&mint);
        if amount > u64::MAX - supply {
            return Err(LedgerError::SupplyOverflow);
        }
        let mut taken = Ledger::new();
        std::mem::swap(self, &mut taken);
        let Ledger { accounts, escrows } = taken;
        let mut accounts = accounts;
        credit(&mut accounts, owner, mint, amount);
        proof {
            assert(consistent(accounts@, escrows@));
            lemma_state_valid(accounts@, escrows@);
            assert(state_of(accounts@, escrows@) =~= old(self)@.mint_to(owner, mint, amount));
        }
        *self = Ledger { accounts, escrows };
        Ok(())
    }

    /// Opens an escrow: moves `deposit` of `mint_a` from the maker into a
    /// new vault, and records that the maker asks `receive` of `mint_b` for
    /// it, from `LOCK_SECONDS` after `now` on. Fails, and changes nothing,
    /// when the maker ever made an escrow under `seed`, and otherwise when
    /// the maker holds less than `deposit`.
    pub fn make(
        &mut self,
        maker: Address,
        mint_a: Address,
        mint_b: Address,
        seed: u64,
        deposit: u64,
        receive: u64,
        now: i64,
    ) -> (r: Result<(), LedgerError>)
        requires
            deposit > 0,
            Escrow::lock_fits(now),
        ensures
            r == old(self)@.make_outcome(maker, mint_a, seed, deposit),
            r is Ok ==> final(self)@ == old(self)@.make(
                maker,
                mint_a,
                mint_b,
                seed,
                deposit,
                receive,
                now,
            ),
            r is Ok ==> final(self)@.is_open(maker, seed),
            r is Ok ==> final(self)@.vault(maker, seed) == deposit,
            r is Ok ==> final(self)@.record(maker, seed).receive == receive,
            r is Ok ==> final(self)@.record(maker, seed).maker == maker,
            r is Err ==> final(self)@ == old(self)@,
            final(self)@.valid(),
            final(self)@.solvent(),
    {
        proof {
            use_type_invariant(&*self);
            lemma_state_valid(self.accounts@, self.escrows@);
        }
        if find_entry(&self.escrows, &maker, seed).is_some() {
            return Err(LedgerError::AccountAlreadyExists);
        }
        if balance_of(&self.accounts, &maker, &mint_a) < deposit {
            return Err(LedgerError::InsufficientFunds);
        }
        let opened = Slot {
            maker,
            seed,
            state: EscrowState::Open {
                record: Escrow::new(seed, maker, mint_a, mint_b, receive, now),
                vault: deposit,
            },
        };
        let mut taken = Ledger::new();
        std::mem::swap(self, &mut taken);
        let Ledger { accounts, escrows } = taken;
        let mut accounts = accounts;
        let mut escrows = escrows;
        debit(&mut accounts, maker, mint_a, deposit);
        proof {
            lemma_file(escrows@, opened);
        }
        escrows.push(opened);
        proof {
            assert(consistent(accounts@, escrows@));
            lemma_state_valid(accounts@, escrows@);
            assert(state_of(accounts@, escrows@) =~= old(self)@.make(
                maker,
                mint_a,
                mint_b,
                seed,
                deposit,
                receive,
                now,
            ));
        }
        *self = Ledger { accounts, escrows };
        Ok(())
    }

    /// Completes the swap of the escrow that `maker` made under `seed`: the
    /// taker pays the maker what the escrow asks, receives all that the
    /// vault holds, and the escrow is closed. Fails, and changes nothing,
    /// when no such escrow is open, then when `now` is before its unlock
    /// time, then when the taker cannot pay.
    pub fn take(&mut self, taker: Address, maker: Address, seed: u64, now: i64) -> (r: Result<
        (),
        LedgerError,
    >)
        ensures
            r == old(self)@.take_outcome(taker, maker, seed, now),
            old(self)@.is_open(maker, seed) && now < old(self)@.record(maker, seed).lock_until
                ==> r == Err::<(), LedgerError>(LedgerError::Program(ErrorCode::Locked)),
            r is Ok ==> final(self)@ == old(self)@.take(taker, maker, seed),
            r is Ok ==> final(self)@.is_closed(maker, seed),
            r is Err ==> final(self)@ == old(self)@,
            final(self)@.valid(),
            final(self)@.solvent(),
    {
        proof {
            use_type_invariant(&*self);
            lemma_state_valid(self.accounts@, self.escrows@);
        }
        let i = match find_entry(&self.escrows, &maker, seed) {
            Some(i) => i,
            None => {
                return Err(LedgerError::AccountNotFound);
            },
        };
        proof {
            lemma_entry_at(self.escrows@, i as int);
            lemma_vault_bounded(self.escrows@, i as int);
        }
        let (record, vault) = match self.escrows[i].state {
            EscrowState::Open { record, vault } => (record, vault),
            _ => {
                return Err(LedgerError::AccountNotFound);
            },
        };
        match record.check_unlocked(now) {
            Ok(()) => {},
            Err(code) => {
                return Err(LedgerError::Program(code));
            },
        }
        if balance_of(&self.accounts, &taker, &record.mint_b) < record.receive {
            return Err(LedgerError::InsufficientFunds);
        }
        let closed = Slot { maker, seed, state: EscrowState::Completed };
        let mut taken = Ledger::new();
        std::mem::swap(self, &mut taken);
        let Ledger { accounts, escrows } = taken;
        let mut accounts = accounts;
        let mut escrows = escrows;
        debit(&mut accounts, taker, record.mint_b, record.receive);
        credit(&mut accounts, maker, record.mint_b, record.receive);
        proof {
            lemma_restate(escrows@, i as int, EscrowState::Completed);
        }
        escrows.set(i, closed);
        credit(&mut accounts, taker, record.mint_a, vault);
        proof {
            assert(consistent(accounts@, escrows@));
            lemma_state_valid(accounts@, escrows@);
            assert(state_of(accounts@, escrows@) =~= old(self)@.take(taker, maker, seed));
        }
        *self = Ledger { accounts, escrows };
        Ok(())
    }

    /// Gives the maker back all that the vault of the escrow under `seed`
    /// holds and closes the escrow, at any time. Fails, and changes
    /// nothing, only when no such escrow is open.
    pub fn refund(&mut self, maker: Address, seed: u64) -> (r: Result<(), LedgerError>)
        ensures
            r == old(self)@.refund_outcome(maker, seed),
            r is Ok <==> old(self)@.is_open(maker, seed),
            r is Ok ==> final(self)@ == old(self)@.refund(maker, seed),
            r is Ok ==> final(self)@.is_closed(maker, seed),
            r is Err ==> final(self)@ == old(self)@,
            final(self)@.valid(),
            final(self)@.solvent(),
    {
        proof {
            use_type_invariant(&*self);
            lemma_state_valid(self.accounts@, self.escrows@);
        }
        let i = match find_entry(&self.escrows, &maker, seed) {
            Some(i) => i,
            None => {
                return Err(LedgerError::AccountNotFound);
            },
        };
        proof {
            lemma_entry_at(self.escrows@, i as int);
            lemma_vault_bounded(self.escrows@, i as int);
        }
        let (record, vault) = match self.escrows[i].state {
            EscrowState::Open { record, vault } => (record, vault),
            _ => {
                return Err(LedgerError::AccountNotFound);
            },
        };
        let closed = Slot { maker, seed, state: EscrowState::Refunded };
        let mut taken = Ledger::new();
        std::mem::swap(self, &mut taken);
        let Ledger { accounts, escrows } = taken;
        let mut accounts = accounts;
        let mut escrows = escrows;
        proof {
            lemma_restate(escrows@, i as int, EscrowState::Refunded);
        }
        escrows.set(i, closed);
        credit(&mut accounts, maker, record.mint_a, vault);
        proof {
            assert(consistent(accounts@, escrows@));
            lemma_state_valid(accounts@, escrows@);
            assert(state_of(accounts@, escrows@) =~= old(self)@.refund(maker, seed));
        }
        *self = Ledger { accounts, escrows };
        Ok(())
    }

    /// Submits one instruction, whatever its arguments. An accepted
    /// instruction has its effect; a rejected one changes nothing and says
    /// why. A `make` whose arguments lie outside what `make` is defined for
    /// is rejected as `InvalidArgument`.
    pub fn execute(&mut self, ix: Instruction) -> (r: Result<(), LedgerError>)
        ensures
            r == old(self)@.outcome(ix),
            final(self)@ == old(self)@.apply(ix),
            final(self)@.valid(),
            final(self)@.solvent(),
    {
        proof {
            use_type_invariant(&*self);
            lemma_state_valid(self.accounts@, self.escrows@);
        }
        match ix {
            Instruction::MintTo { owner, mint, amount } => self.mint_to(owner, mint, amount),
            Instruction::Make { maker, mint_a, mint_b, seed, deposit, receive, now } => {
                if deposit == 0 || now > i64::MAX - LOCK_SECONDS {
                    Err(LedgerError::InvalidArgument)
                } else {
                    self.make(maker, mint_a, mint_b, seed, deposit, receive, now)
                }
            },
            Instruction::Take { taker, maker, seed, now } => self.take(taker, maker, seed, now),
            Instruction::Refund { maker, seed } => self.refund(maker, seed),
        }
    }
}

} // verus!
