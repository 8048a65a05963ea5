//! The ledger as a mathematical state, and each instruction as a function
//! from one state to the next.
use vstd::prelude::*;
use crate::address::Address;
use crate::escrow::error::{ErrorCode, LedgerError};
use crate::escrow::state::{Escrow, EscrowState};

verus! {

/// What a ledger holds, seen as maps.
#[verifier::ext_equal]
pub struct LedgerState {
    /// The balance of every (owner, mint) pair; zero where no tokens were
    /// ever received.
    pub balances: Map<(Address, Address), nat>,
    /// The number of tokens of every mint in existence, in token accounts
    /// and in vaults together.
    pub supply: Map<Address, nat>,
    /// Where every escrow ever made stands, by (maker, seed).
    pub escrows: Map<(Address, u64), EscrowState>,
}

impl LedgerState {
    /// The ledger in which nothing was minted and no escrow was made.
    pub open spec fn empty() -> LedgerState {
        LedgerState {
            balances: Map::total(|k: (Address, Address)| 0nat),
            supply: Map::total(|m: Address| 0nat),
            escrows: Map::empty(),
        }
    }

    /// What `owner` holds of `mint`.
    pub open spec fn balance(self, owner: Address, mint: Address) -> nat {
        self.balances[(owner, mint)]
    }

    /// How many tokens of `mint` exist.
    pub open spec fn supply_of(self, mint: Address) -> nat {
        self.supply[mint]
    }

    /// Whether an escrow was ever made by `maker` under `seed`.
    pub open spec fn known(self, maker: Address, seed: u64) -> bool {
        self.escrows.dom().contains((maker, seed))
    }

    /// Whether an escrow of `maker` under `seed` exists and is open.
    pub open spec fn is_open(self, maker: Address, seed: u64) -> bool {
        self.known(maker, seed) && self.escrows[(maker, seed)] is Open
    }

    /// The terms of the open escrow of `maker` under `seed`.
    pub open spec fn record(self, maker: Address, seed: u64) -> Escrow
        recommends
            self.is_open(maker, seed),
    {
        self.escrows[(maker, seed)]->record
    }

    /// What the vault of the open escrow of `maker` under `seed` holds.
    pub open spec fn vault(self, maker: Address, seed: u64) -> u64
        recommends
            self.is_open(maker, seed),
    {
        self.escrows[(maker, seed)]->vault
    }

    /// Whether an escrow of `maker` under `seed` existed and was closed.
    pub open spec fn is_closed(self, maker: Address, seed: u64) -> bool {
        self.known(maker, seed) && !(self.escrows[(maker, seed)] is Open)
    }

    /// What every reachable state satisfies: balances and supplies are
    /// defined everywhere, and each open escrow is filed under the maker
    /// and seed of its own record and has a funded vault.
    pub open spec fn valid(self) -> bool {
        &&& self.balances.dom() == Set::<(Address, Address)>::full()
        &&& self.supply.dom() == Set::<Address>::full()
        &&& forall|maker: Address, seed: u64| #[trigger]
            self.is_open(maker, seed) ==> {
                &&& self.record(maker, seed).maker == maker
                &&& self.record(maker, seed).seed == seed
                &&& self.vault(maker, seed) > 0
            }
    }

    /// No account and no vault holds more than there is of its mint, and
    /// the supply of every mint fits in `u64`.
    pub open spec fn solvent(self) -> bool {
        &&& forall|mint: Address| #[trigger] self.supply[mint] <= u64::MAX
        &&& forall|owner: Address, mint: Address| #[trigger]
            self.balances[(owner, mint)] <= self.supply[mint]
        &&& forall|maker: Address, seed: u64| #[trigger]
            self.is_open(maker, seed) ==> self.vault(maker, seed) <= self.supply[self.record(
                maker,
                seed,
            ).mint_a]
    }

    /// The state after `amount` was added to what `owner` holds of `mint`.
    pub open spec fn credit(self, owner: Address, mint: Address, amount: nat) -> LedgerState {
        LedgerState {
            balances: self.balances.insert((owner, mint), self.balances[(owner, mint)] + amount),
            ..self
        }
    }

    /// The state after `amount` was taken from what `owner` holds of `mint`.
    pub open spec fn debit(self, owner: Address, mint: Address, amount: nat) -> LedgerState
        recommends
            amount <= self.balances[(owner, mint)],
    {
        LedgerState {
            balances: self.balances.insert(
                (owner, mint),
                (self.balances[(owner, mint)] - amount) as nat,
            ),
            ..self
        }
    }

    /// The state after the escrow of `maker` under `seed` was closed as
    /// `closed`: its record and its vault are gone.
    pub open spec fn close(self, maker: Address, seed: u64, closed: EscrowState) -> LedgerState
        recommends
            !(closed is Open),
    {
        LedgerState { escrows: self.escrows.insert((maker, seed), closed), ..self }
    }

    /// Minting fails exactly when the new supply would not fit in `u64`.
    pub open spec fn mint_to_outcome(self, mint: Address, amount: u64) -> Result<(), LedgerError> {
        if self.supply[mint] + amount > u64::MAX {
            Err(LedgerError::SupplyOverflow)
        } else {
            Ok(())
        }
    }

    /// The state after `amount` new tokens of `mint` were issued to `owner`.
    pub open spec fn mint_to(self, owner: Address, mint: Address, amount: u64) -> LedgerState {
        LedgerState {
            supply: self.supply.insert(mint, self.supply[mint] + amount as nat),
            ..self.credit(owner, mint, amount as nat)
        }
    }

    /// `make` fails when the address derived from maker and seed was ever
    /// used, and otherwise when the maker holds less than the deposit.
    pub open spec fn make_outcome(
        self,
        maker: Address,
        mint_a: Address,
        seed: u64,
        deposit: u64,
    ) -> Result<(), LedgerError> {
        if self.known(maker, seed) {
            Err(LedgerError::AccountAlreadyExists)
        } else if self.balance(maker, mint_a) < deposit {
            Err(LedgerError::InsufficientFunds)
        } else {
            Ok(())
        }
    }

    /// The state after a successful `make`: the deposit has moved from the
    /// maker into the vault of a new open escrow.
    pub open spec fn make(
        self,
        maker: Address,
        mint_a: Address,
        mint_b: Address,
        seed: u64,
        deposit: u64,
        receive: u64,
        now: i64,
    ) -> LedgerState {
        let opened = EscrowState::Open {
            record: Escrow::spec_new(seed, maker, mint_a, mint_b, receive, now),
            vault: deposit,
        };
        LedgerState {
            escrows: self.escrows.insert((maker, seed), opened),
            ..self.debit(maker, mint_a, deposit as nat)
        }
    }

    /// `take` fails when no open escrow is found, then when the escrow is
    /// still locked, then when the taker cannot pay.
    pub open spec fn take_outcome(
        self,
        taker: Address,
        maker: Address,
        seed: u64,
        now: i64,
    ) -> Result<(), LedgerError> {
        if !self.is_open(maker, seed) {
            Err(LedgerError::AccountNotFound)
        } else {
            let record = self.record(maker, seed);
            if !record.unlocked_at(now) {
                Err(LedgerError::Program(ErrorCode::Locked))
            } else if self.balance(taker, record.mint_b) < record.receive {
                Err(LedgerError::InsufficientFunds)
            } else {
                Ok(())
            }
        }
    }

    /// The state after a successful `take`: the taker has paid the maker,
    /// the vault has been paid out to the taker, and the escrow is closed.
    pub open spec fn take(self, taker: Address, maker: Address, seed: u64) -> LedgerState {
        let record = self.record(maker, seed);
        let vault = self.vault(maker, seed);
        self.debit(taker, record.mint_b, record.receive as nat).credit(
            maker,
            record.mint_b,
            record.receive as nat,
        ).close(maker, seed, EscrowState::Completed).credit(taker, record.mint_a, vault as nat)
    }

    /// `refund` fails only when no open escrow is found.
    pub open spec fn refund_outcome(self, maker: Address, seed: u64) -> Result<(), LedgerError> {
        if !self.is_open(maker, seed) {
            Err(LedgerError::AccountNotFound)
        } else {
            Ok(())
        }
    }

    /// The state after a successful `refund`: the vault has been paid back
    /// to the maker and the escrow is closed.
    pub open spec fn refund(self, maker: Address, seed: u64) -> LedgerState {
        let record = self.record(maker, seed);
        let vault = self.vault(maker, seed);
        self.close(maker, seed, EscrowState::Refunded).credit(maker, record.mint_a, vault as nat)
    }

    /// Whether `ix` is accepted in this state, and if not, why not.
    pub open spec fn outcome(self, ix: Instruction) -> Result<(), LedgerError> {
        match ix {
            Instruction::MintTo { owner, mint, amount } => self.mint_to_outcome(mint, amount),
            Instruction::Make { maker, mint_a, mint_b, seed, deposit, receive, now } => {
                if deposit == 0 || !Escrow::lock_fits(now) {
                    Err(LedgerError::InvalidArgument)
                } else {
                    self.make_outcome(maker, mint_a, seed, deposit)
                }
            },
            Instruction::Take { taker, maker, seed, now } => self.take_outcome(
                taker,
                maker,
                seed,
                now,
            ),
            Instruction::Refund { maker, seed } => self.refund_outcome(maker, seed),
        }
    }

    /// The state after `ix` was submitted: the instruction's effect where
    /// it is accepted, and the state unchanged where it is rejected.
    pub open spec fn apply(self, ix: Instruction) -> LedgerState {
        if self.outcome(ix) is Err {
            self
        } else {
            match ix {
                Instruction::MintTo { owner, mint, amount } => self.mint_to(owner, mint, amount),
                Instruction::Make { maker, mint_a, mint_b, seed, deposit, receive, now } => self.make(
                    maker,
                    mint_a,
                    mint_b,
                    seed,
                    deposit,
                    receive,
                    now,
                ),
                Instruction::Take { taker, maker, seed, now } => self.take(taker, maker, seed),
                Instruction::Refund { maker, seed } => self.refund(maker, seed),
            }
        }
    }

    /// The state after the instructions of `ixs` were submitted in order.
    pub open spec fn run(self, ixs: Seq<Instruction>) -> LedgerState
        decreases ixs.len(),
    {
        if ixs.len() == 0 {
            self
        } else {
            self.run(ixs.drop_last()).apply(ixs.last())
        }
    }
}

/// One call of the ledger, with its arguments.
#[derive(Clone, Copy, Debug, PartialEq, Eq)]
pub enum Instruction {
    /// Issue `amount` new tokens of `mint` to `owner`.
    MintTo { owner: Address, mint: Address, amount: u64 },
    /// Open an escrow at time `now`.
    Make {
        maker: Address,
        mint_a: Address,
        mint_b: Address,
        seed: u64,
        deposit: u64,
        receive: u64,
        now: i64,
    },
    /// Complete the swap of an escrow at time `now`.
    Take { taker: Address, maker: Address, seed: u64, now: i64 },
    /// Take the deposit of an escrow back.
    Refund { maker: Address, seed: u64 },
}

} // verus!
