//! Reading the transfer-hook flag out of a token account's data.
use vstd::prelude::*;
use anchor_lang::prelude::ProgramError;
use anchor_spl::token_2022::spl_token_2022::extension::transfer_hook::TransferHookAccount;
use anchor_spl::token_2022::spl_token_2022::extension::{
    BaseStateWithExtensionsMut, PodStateWithExtensionsMut,
};
use anchor_spl::token_2022::spl_token_2022::pod::PodAccount;
use crate::vault_hook::error::HookError;

verus! {

/// What reading `data` as a token account with extensions gives for the
/// `transferring` flag of its transfer-hook extension: the flag, or the
/// error with which unpacking the account or finding the extension fails.
pub uninterp spec fn unpacked_transferring(data: Seq<u8>) -> Result<bool, ProgramError>;

/// Calls `PodStateWithExtensionsMut::<PodAccount>::unpack` and, on the
/// account that it gives, `get_extension_mut::<TransferHookAccount>`, both
/// of `spl_token_2022` as `anchor_spl` hands it on, on a copy of `data`.
/// The two calls stand together because the unpacked account borrows the
/// bytes. The contract claims only that the outcome is a function of the
/// bytes.
#[verifier::external_body]
pub(crate) fn unpack_transferring(data: &Vec<u8>) -> (r: Result<bool, ProgramError>)
    ensures
        r == unpacked_transferring(data@),
{
    let mut copy = data.clone();
    let mut account = PodStateWithExtensionsMut::<PodAccount>::unpack(copy.as_mut_slice())?;
    let extension = account.get_extension_mut::<TransferHookAccount>()?;
    Ok(bool::from(extension.transferring))
}

/// What the hook makes of the flag read from the source account.
pub open spec fn spec_transferring_verdict(unpacked: Result<bool, ProgramError>) -> Result<
    (),
    HookError,
> {
    match unpacked {
        Ok(true) => Ok(()),
        Ok(false) => Err(HookError::NotTransferring),
        Err(e) => Err(HookError::Program(e)),
    }
}

/// Decides from the flag read from the source account whether the hook
/// runs inside a transfer: it does when the flag is set; an unset flag is
/// `NotTransferring`, and a failure to read the flag is passed on.
pub fn transferring_verdict(unpacked: Result<bool, ProgramError>) -> (r: Result<(), HookError>)
    ensures
        r == spec_transferring_verdict(unpacked),
{
    match unpacked {
        Ok(flag) => {
            if flag {
                Ok(())
            } else {
                Err(HookError::NotTransferring)
            }
        },
        Err(e) => Err(HookError::Program(e)),
    }
}

} // verus!
