//! What can go wrong in the escrow program and in the ledger beneath it.
use vstd::prelude::*;

verus! {

/// The errors that the escrow program raises itself.
#[derive(Clone, Copy, Debug, PartialEq, Eq, Structural)]
pub enum ErrorCode {
    /// The swap was attempted before the escrow's unlock time.
    Locked,
}

impl ErrorCode {
    /// The text shown to a user for this error.
    pub open spec fn spec_message(self) -> Seq<char> {
        match self {
            ErrorCode::Locked => "Too early to take from the escrow"@,
        }
    }

    /// The text shown to a user for this error.
    pub fn message(&self) -> (r: &'static str)
        ensures
            r@ == self.spec_message(),
    {
        match self {
            ErrorCode::Locked => "Too early to take from the escrow",
        }
    }
}

/// Why an instruction against the ledger was rejected. A rejected
/// instruction leaves the ledger as it was.
#[derive(Clone, Copy, Debug, PartialEq, Eq, Structural)]
pub enum LedgerError {
    /// The program's own check failed.
    Program(ErrorCode),
    /// A token account holds less than the amount to move out of it.
    InsufficientFunds,
    /// The address of the escrow to create is, or once was, in use.
    AccountAlreadyExists,
    /// No open escrow lives at the address given.
    AccountNotFound,
    /// Minting would take a mint's supply past `u64::MAX`.
    SupplyOverflow,
    /// The arguments lie outside what the instruction is defined for: a
    /// `make` with a zero deposit, or at a time so late that its unlock
    /// time is no timestamp.
    InvalidArgument,
}

} // verus!
