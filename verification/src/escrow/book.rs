//! The book of escrows: every escrow ever made, filed once under its maker
//! and seed, and kept on file after it is closed so that its address is
//! never used again.
use vstd::prelude::*;
use crate::address::Address;
use crate::escrow::state::EscrowState;
use crate::escrow::sums::{
    lemma_sum_bounds_each, lemma_sum_prefix, lemma_sum_prefix_step, lemma_sum_push,
    lemma_sum_update, seq_sum,
};

verus! {

/// One line of the book: who made the escrow, under which seed, and where
/// it stands.
#[derive(Clone, Copy, Debug)]
pub struct Slot {
    pub maker: Address,
    pub seed: u64,
    pub state: EscrowState,
}

/// What the vault of an escrow in `state` adds to the supply of `mint`.
pub open spec fn locked(state: EscrowState, mint: Address) -> nat {
    if state is Open && state->record.mint_a == mint {
        state->vault as nat
    } else {
        0
    }
}

/// What each vault in `s` adds to the supply of `mint`.
pub open spec fn vault_holdings(s: Seq<Slot>, mint: Address) -> Seq<nat> {
    Seq::new(s.len(), |i: int| locked(s[i].state, mint))
}

/// The number of tokens of `mint` that the vaults in `s` hold together.
pub open spec fn vault_sum(s: Seq<Slot>, mint: Address) -> nat {
    seq_sum(vault_holdings(s, mint))
}

/// No maker and seed occur twice in `s`.
pub open spec fn filed_once(s: Seq<Slot>) -> bool {
    forall|i: int, j: int|
        #![trigger s[i], s[j]]
        0 <= i < j < s.len() ==> !(s[i].maker == s[j].maker && s[i].seed == s[j].seed)
}

/// An open escrow is filed under the maker and seed of its own record and
/// has a funded vault.
pub open spec fn slot_sound(slot: Slot) -> bool {
    slot.state is Open ==> {
        &&& slot.state->record.maker == slot.maker
        &&& slot.state->record.seed == slot.seed
        &&& slot.state->vault > 0
    }
}

/// Every line of `s` is sound.
pub open spec fn all_sound(s: Seq<Slot>) -> bool {
    forall|i: int| 0 <= i < s.len() ==> slot_sound(#[trigger] s[i])
}

/// Whether position `i` of `s` is the escrow of `maker` under `seed`.
pub open spec fn is_entry_at(s: Seq<Slot>, maker: Address, seed: u64, i: int) -> bool {
    0 <= i < s.len() && s[i].maker == maker && s[i].seed == seed
}

/// Whether `s` has an escrow of `maker` under `seed`, open or closed.
pub open spec fn has_entry(s: Seq<Slot>, maker: Address, seed: u64) -> bool {
    exists|i: int| is_entry_at(s, maker, seed, i)
}

/// Where the escrow of `maker` under `seed` stands according to `s`.
pub open spec fn entry_in(s: Seq<Slot>, maker: Address, seed: u64) -> EscrowState
    recommends
        has_entry(s, maker, seed),
{
    s[choose|i: int| is_entry_at(s, maker, seed, i)].state
}

/// In a book without repetition, the escrow filed under a maker and seed is
/// the one line that carries them.
pub proof fn lemma_entry_at(s: Seq<Slot>, i: int)
    requires
        filed_once(s),
        0 <= i < s.len(),
    ensures
        has_entry(s, s[i].maker, s[i].seed),
        entry_in(s, s[i].maker, s[i].seed) == s[i].state,
{
    let maker = s[i].maker;
    let seed = s[i].seed;
    assert(is_entry_at(s, maker, seed, i));
    let j = choose|j: int| is_entry_at(s, maker, seed, j);
    if j < i {
        assert(!(s[j].maker == s[i].maker && s[j].seed == s[i].seed));
    } else if i < j {
        assert(!(s[i].maker == s[j].maker && s[i].seed == s[j].seed));
    }
}

/// No vault holds more than all vaults of its mint together.
pub proof fn lemma_vault_bounded(s: Seq<Slot>, i: int)
    requires
        0 <= i < s.len(),
    ensures
        s[i].state is Open ==> s[i].state->vault <= vault_sum(s, s[i].state->record.mint_a),
{
    if s[i].state is Open {
        lemma_sum_bounds_each(vault_holdings(s, s[i].state->record.mint_a), i);
    }
}

/// Filing a new escrow adds its line and its vault, and changes no other
/// line.
pub proof fn lemma_file(s: Seq<Slot>, slot: Slot)
    requires
        filed_once(s),
        all_sound(s),
        slot_sound(slot),
        !has_entry(s, slot.maker, slot.seed),
    ensures
        filed_once(s.push(slot)),
        all_sound(s.push(slot)),
        forall|k: Address, n: u64| #[trigger]
            has_entry(s.push(slot), k, n) == (has_entry(s, k, n) || (k == slot.maker && n
                == slot.seed)),
        forall|k: Address, n: u64|
            has_entry(s.push(slot), k, n) ==> #[trigger] entry_in(s.push(slot), k, n) == if k
                == slot.maker && n == slot.seed {
                slot.state
            } else {
                entry_in(s, k, n)
            },
        forall|m: Address| #[trigger]
            vault_sum(s.push(slot), m) == vault_sum(s, m) + locked(slot.state, m),
{
    let t = s.push(slot);
    assert(filed_once(t)) by {
        assert forall|x: int, y: int| 0 <= x < y < t.len() implies !(t[x].maker == t[y].maker
            && t[x].seed == t[y].seed) by {
            if y == s.len() {
                assert(!is_entry_at(s, slot.maker, slot.seed, x));
            } else {
                assert(!(s[x].maker == s[y].maker && s[x].seed == s[y].seed));
            }
        }
    }
    assert forall|k: Address, n: u64| #[trigger]
        has_entry(t, k, n) == (has_entry(s, k, n) || (k == slot.maker && n == slot.seed)) by {
        if has_entry(s, k, n) {
            let j = choose|j: int| is_entry_at(s, k, n, j);
            assert(is_entry_at(t, k, n, j));
        }
        if k == slot.maker && n == slot.seed {
            assert(is_entry_at(t, k, n, s.len() as int));
        }
        if has_entry(t, k, n) {
            let j = choose|j: int| is_entry_at(t, k, n, j);
            if j < s.len() {
                assert(is_entry_at(s, k, n, j));
            }
        }
    }
    assert forall|k: Address, n: u64| has_entry(t, k, n) implies #[trigger] entry_in(t, k, n)
        == if k == slot.maker && n == slot.seed {
        slot.state
    } else {
        entry_in(s, k, n)
    } by {
        if k == slot.maker && n == slot.seed {
            lemma_entry_at(t, s.len() as int);
        } else {
            let j = choose|j: int| is_entry_at(s, k, n, j);
            assert(is_entry_at(t, k, n, j));
            lemma_entry_at(s, j);
            lemma_entry_at(t, j);
        }
    }
    assert forall|m: Address| #[trigger]
        vault_sum(t, m) == vault_sum(s, m) + locked(slot.state, m) by {
        assert(vault_holdings(t, m) =~= vault_holdings(s, m).push(locked(slot.state, m)));
        lemma_sum_push(vault_holdings(s, m), locked(slot.state, m));
    }
}

/// Putting the escrow at line `i` into another state changes that line and
/// its vault's share, and nothing else.
pub proof fn lemma_restate(s: Seq<Slot>, i: int, state: EscrowState)
    requires
        filed_once(s),
        all_sound(s),
        0 <= i < s.len(),
        slot_sound(Slot { maker: s[i].maker, seed: s[i].seed, state }),
    ensures
        ({
            let t = s.update(i, Slot { maker: s[i].maker, seed: s[i].seed, state });
            &&& filed_once(t)
            &&& all_sound(t)
            &&& forall|k: Address, n: u64| #[trigger] has_entry(t, k, n) == has_entry(s, k, n)
            &&& forall|k: Address, n: u64|
                has_entry(s, k, n) ==> #[trigger] entry_in(t, k, n) == if k == s[i].maker && n
                    == s[i].seed {
                    state
                } else {
                    entry_in(s, k, n)
                }
            &&& forall|m: Address| #[trigger]
                vault_sum(t, m) == vault_sum(s, m) - locked(s[i].state, m) + locked(state, m)
        }),
{
    let t = s.update(i, Slot { maker: s[i].maker, seed: s[i].seed, state });
    assert(filed_once(t)) by {
        assert forall|x: int, y: int| 0 <= x < y < t.len() implies !(t[x].maker == t[y].maker
            && t[x].seed == t[y].seed) by {
            assert(!(s[x].maker == s[y].maker && s[x].seed == s[y].seed));
        }
    }
    assert forall|k: Address, n: u64| #[trigger] has_entry(t, k, n) == has_entry(s, k, n) by {
        if has_entry(s, k, n) {
            let j = choose|j: int| is_entry_at(s, k, n, j);
            assert(is_entry_at(t, k, n, j));
        }
        if has_entry(t, k, n) {
            let j = choose|j: int| is_entry_at(t, k, n, j);
            assert(is_entry_at(s, k, n, j));
        }
    }
    assert forall|k: Address, n: u64| has_entry(s, k, n) implies #[trigger] entry_in(t, k, n)
        == if k == s[i].maker && n == s[i].seed {
        state
    } else {
        entry_in(s, k, n)
    } by {
        if k == s[i].maker && n == s[i].seed {
            lemma_entry_at(t, i);
        } else {
            let j = choose|j: int| is_entry_at(s, k, n, j);
            assert(is_entry_at(t, k, n, j));
            lemma_entry_at(s, j);
            lemma_entry_at(t, j);
        }
    }
    assert forall|m: Address| #[trigger]
        vault_sum(t, m) == vault_sum(s, m) - locked(s[i].state, m) + locked(state, m) by {
        assert(vault_holdings(t, m) =~= vault_holdings(s, m).update(i, locked(state, m)));
        lemma_sum_update(vault_holdings(s, m), i, locked(state, m));
    }
}

/// The line of the escrow of `maker` under `seed`, if one was ever made.
pub fn find_entry(escrows: &Vec<Slot>, maker: &Address, seed: u64) -> (r: Option<usize>)
    ensures
        match r {
            Some(i) => is_entry_at(escrows@, *maker, seed, i as int),
            None => !has_entry(escrows@, *maker, seed),
        },
{
    let mut i: usize = 0;
    while i < escrows.len()
        invariant
            0 <= i <= escrows@.len(),
            forall|j: int| 0 <= j < i ==> !is_entry_at(escrows@, *maker, seed, j),
        decreases escrows@.len() - i,
    {
        if escrows[i].seed == seed && escrows[i].maker.same(maker) {
            return Some(i);
        }
        i += 1;
    }
    None
}

/// The number of tokens of `mint` that all the vaults hold together.
pub fn total_locked(escrows: &Vec<Slot>, mint: &Address) -> (r: u64)
    requires
        vault_sum(escrows@, *mint) <= u64::MAX,
    ensures
        r == vault_sum(escrows@, *mint),
{
    let ghost parts = vault_holdings(escrows@, *mint);
    let mut total: u64 = 0;
    let mut i: usize = 0;
    while i < escrows.len()
        invariant
            0 <= i <= escrows@.len(),
            parts == vault_holdings(escrows@, *mint),
            total == seq_sum(parts.take(i as int)),
            seq_sum(parts) <= u64::MAX,
        decreases escrows@.len() - i,
    {
        proof {
            lemma_sum_prefix_step(parts, i as int);
            lemma_sum_prefix(parts, i as int + 1);
        }
        match escrows[i].state {
            EscrowState::Open { record, vault } => {
                if record.mint_a.same(mint) {
                    total = total + vault;
                }
            },
            _ => {},
        }
        i += 1;
    }
    proof {
        assert(parts.take(i as int) =~= parts);
    }
    total
}

} // verus!
