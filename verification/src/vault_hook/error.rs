//! What can go wrong in the vault program and its transfer hook.
use vstd::prelude::*;
use anchor_lang::prelude::ProgramError;

verus! {

/// `ProgramError` of `anchor_lang`, the chain's own error type: declared so
/// that a value of it can be carried through as it comes. Nothing is
/// claimed of what such a value holds.
#[verifier::external_type_specification]
#[verifier::external_body]
pub struct ExProgramError(ProgramError);

/// The errors that the vault program raises itself.
#[derive(Clone, Copy, Debug, PartialEq, Eq, Structural)]
pub enum ErrorCode {
    /// The owner of the source account is not on the whitelist.
    NotWhitelisted,
    /// The admin account given is not the admin of the vault.
    AdminMismatch,
    /// The mint account given is not the mint of the vault.
    MintMismatch,
}

impl ErrorCode {
    /// The text shown to a user for this error.
    pub open spec fn spec_message(self) -> Seq<char> {
        match self {
            ErrorCode::NotWhitelisted => "User is not whitelisted"@,
            ErrorCode::AdminMismatch => "Admin key mismatch"@,
            ErrorCode::MintMismatch => "Mint mismatch"@,
        }
    }

    /// The text shown to a user for this error.
    pub fn message(&self) -> (r: &'static str)
        ensures
            r@ == self.spec_message(),
    {
        match self {
            ErrorCode::NotWhitelisted => "User is not whitelisted",
            ErrorCode::AdminMismatch => "Admin key mismatch",
            ErrorCode::MintMismatch => "Mint mismatch",
        }
    }
}

/// Why the transfer hook stopped a transfer.
#[derive(Debug, PartialEq, Eq)]
pub enum HookError {
    /// One of the program's own checks failed.
    Code(ErrorCode),
    /// The source account's data could not be read as a token account with
    /// a transfer-hook extension.
    Program(ProgramError),
    /// The source account is not in the middle of a transfer: the hook was
    /// invoked on its own rather than by the token program.
    NotTransferring,
}

} // verus!
