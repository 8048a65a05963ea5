//! Token accounts: one balance for each owner and mint, kept in a list in
//! which no owner and mint occur twice.
use vstd::prelude::*;
use crate::address::Address;
use crate::escrow::sums::{
    lemma_sum_bounds_each, lemma_sum_prefix, lemma_sum_prefix_step, lemma_sum_push,
    lemma_sum_update, seq_sum,
};

verus! {

/// What one owner holds of one mint.
#[derive(Clone, Copy, Debug, PartialEq, Eq)]
pub struct TokenAccount {
    pub owner: Address,
    pub mint: Address,
    pub amount: u64,
}

/// What account `a` adds to the supply of `mint`.
pub open spec fn held(a: TokenAccount, mint: Address) -> nat {
    if a.mint == mint {
        a.amount as nat
    } else {
        0
    }
}

/// What each account in `s` adds to the supply of `mint`.
pub open spec fn holdings(s: Seq<TokenAccount>, mint: Address) -> Seq<nat> {
    Seq::new(s.len(), |i: int| held(s[i], mint))
}

/// The number of tokens of `mint` that the accounts in `s` hold together.
pub open spec fn account_sum(s: Seq<TokenAccount>, mint: Address) -> nat {
    seq_sum(holdings(s, mint))
}

/// No owner and mint occur twice in `s`.
pub open spec fn distinct(s: Seq<TokenAccount>) -> bool {
    forall|i: int, j: int|
        #![trigger s[i], s[j]]
        0 <= i < j < s.len() ==> !(s[i].owner == s[j].owner && s[i].mint == s[j].mint)
}

/// Whether position `i` of `s` is the account of `owner` for `mint`.
pub open spec fn is_account_at(s: Seq<TokenAccount>, owner: Address, mint: Address, i: int) -> bool {
    0 <= i < s.len() && s[i].owner == owner && s[i].mint == mint
}

/// Whether `s` has an account of `owner` for `mint`.
pub open spec fn has_account(s: Seq<TokenAccount>, owner: Address, mint: Address) -> bool {
    exists|i: int| is_account_at(s, owner, mint, i)
}

/// What `owner` holds of `mint` according to `s`: zero without an account.
pub open spec fn balance_in(s: Seq<TokenAccount>, owner: Address, mint: Address) -> nat {
    if has_account(s, owner, mint) {
        s[choose|i: int| is_account_at(s, owner, mint, i)].amount as nat
    } else {
        0
    }
}

/// In a list without repetition, the balance of an owner and mint is the
/// amount of the one account that carries them.
pub proof fn lemma_balance_at(s: Seq<TokenAccount>, i: int)
    requires
        distinct(s),
        0 <= i < s.len(),
    ensures
        has_account(s, s[i].owner, s[i].mint),
        balance_in(s, s[i].owner, s[i].mint) == s[i].amount,
{
    assert(is_account_at(s, s[i].owner, s[i].mint, i));
    let j = choose|j: int| is_account_at(s, s[i].owner, s[i].mint, j);
    if j < i {
        assert(!(s[j].owner == s[i].owner && s[j].mint == s[i].mint));
    } else if i < j {
        assert(!(s[i].owner == s[j].owner && s[i].mint == s[j].mint));
    }
}

/// No balance exceeds what all accounts hold of its mint.
pub proof fn lemma_balance_bounded(s: Seq<TokenAccount>, owner: Address, mint: Address)
    ensures
        balance_in(s, owner, mint) <= account_sum(s, mint),
{
    if has_account(s, owner, mint) {
        let i = choose|i: int| is_account_at(s, owner, mint, i);
        lemma_sum_bounds_each(holdings(s, mint), i);
    }
}

/// Setting the amount of the account at `i` changes that balance and that
/// mint's sum, and nothing else.
pub proof fn lemma_set_amount(s: Seq<TokenAccount>, i: int, amount: u64)
    requires
        distinct(s),
        0 <= i < s.len(),
    ensures
        ({
            let t = s.update(i, TokenAccount { owner: s[i].owner, mint: s[i].mint, amount });
            &&& distinct(t)
            &&& forall|o: Address, m: Address| #[trigger]
                balance_in(t, o, m) == if o == s[i].owner && m == s[i].mint {
                    amount as nat
                } else {
                    balance_in(s, o, m)
                }
            &&& forall|m: Address| #[trigger]
                account_sum(t, m) == if m == s[i].mint {
                    account_sum(s, m) - s[i].amount + amount
                } else {
                    account_sum(s, m) as int
                }
        }),
{
    let t = s.update(i, TokenAccount { owner: s[i].owner, mint: s[i].mint, amount });
    assert(distinct(t)) by {
        assert forall|a: int, b: int| 0 <= a < b < t.len() implies !(t[a].owner == t[b].owner
            && t[a].mint == t[b].mint) by {
            assert(!(s[a].owner == s[b].owner && s[a].mint == s[b].mint));
        }
    }
    assert forall|o: Address, m: Address| #[trigger]
        balance_in(t, o, m) == if o == s[i].owner && m == s[i].mint {
            amount as nat
        } else {
            balance_in(s, o, m)
        } by {
        if o == s[i].owner && m == s[i].mint {
            lemma_balance_at(t, i);
        } else if has_account(s, o, m) {
            let j = choose|j: int| is_account_at(s, o, m, j);
            assert(is_account_at(t, o, m, j));
            lemma_balance_at(s, j);
            lemma_balance_at(t, j);
        } else if has_account(t, o, m) {
            let j = choose|j: int| is_account_at(t, o, m, j);
            assert(is_account_at(s, o, m, j));
        }
    }
    assert forall|m: Address| #[trigger]
        account_sum(t, m) == if m == s[i].mint {
            account_sum(s, m) - s[i].amount + amount
        } else {
            account_sum(s, m) as int
        } by {
        assert(holdings(t, m) =~= holdings(s, m).update(i, held(t[i], m)));
        lemma_sum_update(holdings(s, m), i, held(t[i], m));
    }
}

/// Appending the first account of an owner and mint sets that balance,
/// adds to that mint's sum, and changes nothing else.
pub proof fn lemma_open_account(s: Seq<TokenAccount>, a: TokenAccount)
    requires
        distinct(s),
        !has_account(s, a.owner, a.mint),
    ensures
        distinct(s.push(a)),
        forall|o: Address, m: Address| #[trigger]
            balance_in(s.push(a), o, m) == if o == a.owner && m == a.mint {
                a.amount as nat
            } else {
                balance_in(s, o, m)
            },
        forall|m: Address| #[trigger]
            account_sum(s.push(a), m) == account_sum(s, m) + held(a, m),
        balance_in(s, a.owner, a.mint) == 0,
{
    let t = s.push(a);
    assert(distinct(t)) by {
        assert forall|x: int, y: int| 0 <= x < y < t.len() implies !(t[x].owner == t[y].owner
            && t[x].mint == t[y].mint) by {
            if y == s.len() {
                assert(!is_account_at(s, a.owner, a.mint, x));
            } else {
                assert(!(s[x].owner == s[y].owner && s[x].mint == s[y].mint));
            }
        }
    }
    assert forall|o: Address, m: Address| #[trigger]
        balance_in(t, o, m) == if o == a.owner && m == a.mint {
            a.amount as nat
        } else {
            balance_in(s, o, m)
        } by {
        if o == a.owner && m == a.mint {
            lemma_balance_at(t, s.len() as int);
        } else if has_account(s, o, m) {
            let j = choose|j: int| is_account_at(s, o, m, j);
            assert(is_account_at(t, o, m, j));
            lemma_balance_at(s, j);
            lemma_balance_at(t, j);
        } else if has_account(t, o, m) {
            let j = choose|j: int| is_account_at(t, o, m, j);
            assert(is_account_at(s, o, m, j));
        }
    }
    assert forall|m: Address| #[trigger]
        account_sum(t, m) == account_sum(s, m) + held(a, m) by {
        assert(holdings(t, m) =~= holdings(s, m).push(held(a, m)));
        lemma_sum_push(holdings(s, m), held(a, m));
    }
}

/// The position of the account of `owner` for `mint`, if there is one.
pub fn find_account(accounts: &Vec<TokenAccount>, owner: &Address, mint: &Address) -> (r: Option<
    usize,
>)
    ensures
        match r {
            Some(i) => is_account_at(accounts@, *owner, *mint, i as int),
            None => !has_account(accounts@, *owner, *mint),
        },
{
    let mut i: usize = 0;
    while i < accounts.len()
        invariant
            0 <= i <= accounts@.len(),
            forall|j: int| 0 <= j < i ==> !is_account_at(accounts@, *owner, *mint, j),
        decreases accounts@.len() - i,
    {
        if accounts[i].owner.same(owner) && accounts[i].mint.same(mint) {
            return Some(i);
        }
        i += 1;
    }
    None
}

/// What `owner` holds of `mint`.
pub fn balance_of(accounts: &Vec<TokenAccount>, owner: &Address, mint: &Address) -> (r: u64)
    requires
        distinct(accounts@),
    ensures
        r == balance_in(accounts@, *owner, *mint),
{
    match find_account(accounts, owner, mint) {
        Some(i) => {
            proof {
                lemma_balance_at(accounts@, i as int);
            }
            accounts[i].amount
        },
        None => 0,
    }
}

/// The number of tokens of `mint` that all the accounts hold together.
pub fn total_held(accounts: &Vec<TokenAccount>, mint: &Address) -> (r: u64)
    requires
        account_sum(accounts@, *mint) <= u64::MAX,
    ensures
        r == account_sum(accounts@, *mint),
{
    let ghost parts = holdings(accounts@, *mint);
    let mut total: u64 = 0;
    let mut i: usize = 0;
    while i < accounts.len()
        invariant
            0 <= i <= accounts@.len(),
            parts == holdings(accounts@, *mint),
            total == seq_sum(parts.take(i as int)),
            seq_sum(parts) <= u64::MAX,
        decreases accounts@.len() - i,
    {
        proof {
            lemma_sum_prefix_step(parts, i as int);
            lemma_sum_prefix(parts, i as int + 1);
        }
        if accounts[i].mint.same(mint) {
            total = total + accounts[i].amount;
        }
        i += 1;
    }
    proof {
        assert(parts.take(i as int) =~= parts);
    }
    total
}

/// Adds `amount` to what `owner` holds of `mint`, opening the account where
/// there is none.
pub fn credit(accounts: &mut Vec<TokenAccount>, owner: Address, mint: Address, amount: u64)
    requires
        distinct(old(accounts)@),
        account_sum(old(accounts)@, mint) + amount <= u64::MAX,
    ensures
        distinct(final(accounts)@),
        forall|o: Address, m: Address| #[trigger]
            balance_in(final(accounts)@, o, m) == balance_in(old(accounts)@, o, m) + (if o == owner
                && m == mint {
                amount as int
            } else {
                0
            }),
        forall|m: Address| #[trigger]
            account_sum(final(accounts)@, m) == account_sum(old(accounts)@, m) + (if m == mint {
                amount as int
            } else {
                0
            }),
{
    match find_account(accounts, &owner, &mint) {
        Some(i) => {
            let a = accounts[i];
            proof {
                lemma_balance_at(accounts@, i as int);
                lemma_sum_bounds_each(holdings(accounts@, mint), i as int);
                lemma_set_amount(accounts@, i as int, (a.amount + amount) as u64);
            }
            accounts.set(i, TokenAccount { owner: a.owner, mint: a.mint, amount: a.amount + amount });
        },
        None => {
            let a = TokenAccount { owner, mint, amount };
            proof {
                lemma_open_account(accounts@, a);
            }
            accounts.push(a);
        },
    }
}

/// Takes `amount` from what `owner` holds of `mint`.
pub fn debit(accounts: &mut Vec<TokenAccount>, owner: Address, mint: Address, amount: u64)
    requires
        distinct(old(accounts)@),
        amount <= balance_in(old(accounts)@, owner, mint),
    ensures
        distinct(final(accounts)@),
        forall|o: Address, m: Address| #[trigger]
            balance_in(final(accounts)@, o, m) == balance_in(old(accounts)@, o, m) - (if o == owner
                && m == mint {
                amount as int
            } else {
                0
            }),
        forall|m: Address| #[trigger]
            account_sum(final(accounts)@, m) == account_sum(old(accounts)@, m) - (if m == mint {
                amount as int
            } else {
                0
            }),
{
    match find_account(accounts, &owner, &mint) {
        Some(i) => {
            let a = accounts[i];
            proof {
                lemma_balance_at(accounts@, i as int);
                lemma_set_amount(accounts@, i as int, (a.amount - amount) as u64);
            }
            accounts.set(i, TokenAccount { owner: a.owner, mint: a.mint, amount: a.amount - amount });
        },
        None => {},
    }
}

} // verus!
