//! How an escrow record is laid out in its account, after the tag that marks
//! the account as an escrow: seed, maker, the two mints, the amount asked
//! for and the unlock time, with numbers in little-endian order.
use vstd::prelude::*;
use vstd::bytes::{
    lemma_auto_spec_u64_to_from_le_bytes, spec_u64_from_le_bytes, spec_u64_to_le_bytes,
    u64_from_le_bytes, u64_to_le_bytes,
};
use vstd::slice::slice_subrange;
use crate::address::Address;
use crate::escrow::state::Escrow;
use crate::pda::seed_of;

verus! {

/// Number of bytes that a record takes: 8 for the seed, 32 for each of
/// maker, `mint_a` and `mint_b`, 8 for the amount asked for, and 8 for the
/// unlock time.
pub const RECORD_BYTES: usize = 120;

impl Escrow {
    /// The bytes of this record.
    pub open spec fn spec_pack(self) -> Seq<u8> {
        spec_u64_to_le_bytes(self.seed) + self.maker@ + self.mint_a@ + self.mint_b@
            + spec_u64_to_le_bytes(self.receive) + spec_u64_to_le_bytes(self.lock_until as u64)
    }

    /// Writes this record out.
    pub fn pack(&self) -> (r: Vec<u8>)
        ensures
            r@ == self.spec_pack(),
            r@.len() == RECORD_BYTES,
    {
        proof {
            lemma_auto_spec_u64_to_from_le_bytes();
        }
        let mut out = u64_to_le_bytes(self.seed);
        let mut maker = seed_of(&self.maker.bytes);
        let mut mint_a = seed_of(&self.mint_a.bytes);
        let mut mint_b = seed_of(&self.mint_b.bytes);
        let mut receive = u64_to_le_bytes(self.receive);
        let mut lock_until = u64_to_le_bytes(self.lock_until as u64);
        out.append(&mut maker);
        out.append(&mut mint_a);
        out.append(&mut mint_b);
        out.append(&mut receive);
        out.append(&mut lock_until);
        out
    }

    /// Reads a record back: `data` holds one exactly when it is
    /// `RECORD_BYTES` long, and the record read is the one whose bytes
    /// `data` are.
    pub fn unpack(data: &[u8]) -> (r: Option<Escrow>)
        ensures
            r is Some <==> data@.len() == RECORD_BYTES,
            r is Some ==> r->Some_0.spec_pack() == data@,
            forall|e: Escrow| e.spec_pack() == data@ ==> r == Some(e),
    {
        proof {
            lemma_auto_spec_u64_to_from_le_bytes();
        }
        if data.len() != RECORD_BYTES {
            return None;
        }
        let seed = u64_from_le_bytes(slice_subrange(data, 0, 8));
        let maker = Address::read(data, 8);
        let mint_a = Address::read(data, 40);
        let mint_b = Address::read(data, 72);
        let receive = u64_from_le_bytes(slice_subrange(data, 104, 112));
        let stamp = u64_from_le_bytes(slice_subrange(data, 112, 120));
        let record = Escrow { seed, maker, mint_a, mint_b, receive, lock_until: stamp as i64 };
        proof {
            lemma_auto_spec_u64_to_from_le_bytes();
            assert((stamp as i64) as u64 == stamp) by (bit_vector);
            assert(spec_u64_to_le_bytes(seed) == data@.subrange(0, 8));
            assert(spec_u64_to_le_bytes(receive) == data@.subrange(104, 112));
            assert(spec_u64_to_le_bytes(record.lock_until as u64) == data@.subrange(112, 120));
            assert(record.spec_pack() =~= data@);
            assert forall|e: Escrow| e.spec_pack() == data@ implies e == record by {
                pack_is_injective(e, record);
            }
        }
        Some(record)
    }
}

/// Two records with the same bytes are the same record, so that `unpack`
/// gives back exactly what `pack` was given.
pub proof fn pack_is_injective(a: Escrow, b: Escrow)
    requires
        a.spec_pack() == b.spec_pack(),
    ensures
        a == b,
{
    lemma_auto_spec_u64_to_from_le_bytes();
    let x = a.spec_pack();
    let y = b.spec_pack();
    assert(spec_u64_to_le_bytes(a.seed) =~= x.subrange(0, 8));
    assert(spec_u64_to_le_bytes(b.seed) =~= y.subrange(0, 8));
    assert(a.maker@ =~= x.subrange(8, 40));
    assert(b.maker@ =~= y.subrange(8, 40));
    assert(a.mint_a@ =~= x.subrange(40, 72));
    assert(b.mint_a@ =~= y.subrange(40, 72));
    assert(a.mint_b@ =~= x.subrange(72, 104));
    assert(b.mint_b@ =~= y.subrange(72, 104));
    assert(spec_u64_to_le_bytes(a.receive) =~= x.subrange(104, 112));
    assert(spec_u64_to_le_bytes(b.receive) =~= y.subrange(104, 112));
    assert(spec_u64_to_le_bytes(a.lock_until as u64) =~= x.subrange(112, 120));
    assert(spec_u64_to_le_bytes(b.lock_until as u64) =~= y.subrange(112, 120));
    assert(a.seed == spec_u64_from_le_bytes(spec_u64_to_le_bytes(a.seed)));
    assert(b.seed == spec_u64_from_le_bytes(spec_u64_to_le_bytes(b.seed)));
    assert(a.receive == spec_u64_from_le_bytes(spec_u64_to_le_bytes(a.receive)));
    assert(b.receive == spec_u64_from_le_bytes(spec_u64_to_le_bytes(b.receive)));
    let p = a.lock_until as u64;
    let q = b.lock_until as u64;
    assert(p == spec_u64_from_le_bytes(spec_u64_to_le_bytes(p)));
    assert(q == spec_u64_from_le_bytes(spec_u64_to_le_bytes(q)));
    let s = a.lock_until;
    let t = b.lock_until;
    assert((s as u64) == (t as u64) ==> s == t) by (bit_vector);
    Address::lemma_view_injective(a.maker, b.maker);
    Address::lemma_view_injective(a.mint_a, b.mint_a);
    Address::lemma_view_injective(a.mint_b, b.mint_b);
}

} // verus!
