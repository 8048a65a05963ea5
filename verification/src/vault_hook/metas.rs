//! The extra accounts that the transfer hook needs, each given by the seeds
//! from which the token program derives its address.
use vstd::prelude::*;
use anchor_lang::prelude::ProgramError;
use spl_tlv_account_resolution::account as tlv_account;
use spl_tlv_account_resolution::seeds as tlv_seeds;

verus! {

/// Number of bytes into which the seeds of one extra account are packed.
pub const CONFIG_BYTES: usize = 32;

/// The longest literal that can be written down as a seed at all: its
/// length and the two bytes before it must fit in a byte.
pub const MAX_LITERAL_BYTES: usize = 253;

/// One seed of a program-derived address, to be resolved when a transfer
/// runs.
#[derive(Debug, PartialEq, Eq)]
pub enum Seed {
    /// Fixed bytes.
    Literal { bytes: Vec<u8> },
    /// `length` bytes of the instruction data, from `index` on.
    InstructionData { index: u8, length: u8 },
    /// The address of the account at `index` in the instruction's accounts.
    AccountKey { index: u8 },
    /// `length` bytes of the data of the account at `account_index`, from
    /// `data_index` on.
    AccountData { account_index: u8, data_index: u8, length: u8 },
}

/// An account that the token program adds to a transfer before it calls
/// the hook.
#[derive(Clone, Copy, Debug, PartialEq, Eq)]
pub struct ExtraAccountMeta {
    /// 1 for an address derived from seeds under the hook program.
    pub discriminator: u8,
    /// The packed seeds, filled up with zeroes.
    pub address_config: [u8; 32],
    pub is_signer: bool,
    pub is_writable: bool,
}

/// A seed as a mathematical value.
pub enum SeedView {
    Literal { bytes: Seq<u8> },
    InstructionData { index: u8, length: u8 },
    AccountKey { index: u8 },
    AccountData { account_index: u8, data_index: u8, length: u8 },
}

impl DeepView for Seed {
    type V = SeedView;

    open spec fn deep_view(&self) -> SeedView {
        match *self {
            Seed::Literal { bytes } => SeedView::Literal { bytes: bytes@ },
            Seed::InstructionData { index, length } => SeedView::InstructionData { index, length },
            Seed::AccountKey { index } => SeedView::AccountKey { index },
            Seed::AccountData { account_index, data_index, length } => SeedView::AccountData {
                account_index,
                data_index,
                length,
            },
        }
    }
}

impl SeedView {
    /// Whether this seed can be written down: a literal is at most
    /// `MAX_LITERAL_BYTES` long.
    pub open spec fn writable(self) -> bool {
        match self {
            SeedView::Literal { bytes } => bytes.len() <= MAX_LITERAL_BYTES,
            _ => true,
        }
    }

    /// The bytes that stand for this seed: a tag, then for a literal its
    /// length and its bytes, and for the others their one to three
    /// numbers.
    pub open spec fn packed(self) -> Seq<u8> {
        match self {
            SeedView::Literal { bytes } => seq![1u8, bytes.len() as u8] + bytes,
            SeedView::InstructionData { index, length } => seq![2u8, index, length],
            SeedView::AccountKey { index } => seq![3u8, index],
            SeedView::AccountData { account_index, data_index, length } => seq![
                4u8,
                account_index,
                data_index,
                length,
            ],
        }
    }
}

/// Every seed of `seeds` can be written down.
pub open spec fn all_writable(seeds: Seq<SeedView>) -> bool {
    forall|i: int| 0 <= i < seeds.len() ==> (#[trigger] seeds[i]).writable()
}

/// The bytes that stand for `seeds`, one seed after the other.
pub open spec fn packed_seeds(seeds: Seq<SeedView>) -> Seq<u8>
    decreases seeds.len(),
{
    if seeds.len() == 0 {
        Seq::empty()
    } else {
        packed_seeds(seeds.drop_last()) + seeds.last().packed()
    }
}

/// `packed` filled up with zeroes to `CONFIG_BYTES` bytes.
pub open spec fn zero_padded(packed: Seq<u8>) -> Seq<u8>
    recommends
        packed.len() <= CONFIG_BYTES,
{
    Seq::new(
        CONFIG_BYTES as nat,
        |i: int|
            if i < packed.len() {
                packed[i]
            } else {
                0u8
            },
    )
}

/// Calls `ExtraAccountMeta::new_with_seeds` of `spl_tlv_account_resolution`
/// on a copy of the seeds. The contract claims what the crate documents for
/// the packing of seeds: the call succeeds exactly when the packed seeds
/// take at most 32 bytes; the result then has discriminator 1, the packed
/// seeds followed by zeroes as its address configuration, and the two flags
/// as given. Literals longer than `MAX_LITERAL_BYTES` are left out, since
/// the crate computes a seed's packed length in a byte.
#[verifier::external_body]
pub(crate) fn new_with_seeds(seeds: &Vec<Seed>, is_signer: bool, is_writable: bool) -> (r: Result<
    ExtraAccountMeta,
    ProgramError,
>)
    requires
        all_writable(seeds.deep_view()),
    ensures
        r is Ok <==> packed_seeds(seeds.deep_view()).len() <= CONFIG_BYTES,
        r is Ok ==> r->Ok_0.discriminator == 1 && r->Ok_0.address_config@ == zero_padded(
            packed_seeds(seeds.deep_view()),
        ) && r->Ok_0.is_signer == is_signer && r->Ok_0.is_writable == is_writable,
{
    let outside: Vec<tlv_seeds::Seed> = seeds.iter().map(|s| match s {
        Seed::Literal { bytes } => tlv_seeds::Seed::Literal { bytes: bytes.clone() },
        Seed::InstructionData { index, length } => tlv_seeds::Seed::InstructionData { index: *index, length: *length },
        Seed::AccountKey { index } => tlv_seeds::Seed::AccountKey { index: *index },
        Seed::AccountData { account_index, data_index, length } => tlv_seeds::Seed::AccountData { account_index: *account_index, data_index: *data_index, length: *length },
    }).collect();
    let m = tlv_account::ExtraAccountMeta::new_with_seeds(&outside, is_signer, is_writable)?;
    Ok(ExtraAccountMeta { discriminator: m.discriminator, address_config: m.address_config, is_signer: m.is_signer.into(), is_writable: m.is_writable.into() })
}

} // verus!
