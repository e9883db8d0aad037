//! Funds as lists of coins, compared by value: two lists carry the same funds
//! when every denomination totals the same amount in both, regardless of
//! order.

use vstd::prelude::*;

verus! {

/// A quantity of a single denomination.
#[derive(Clone, Debug, PartialEq, Eq)]
pub struct Coin {
    pub denom: String,
    pub amount: u128,
}

/// Total amount of `denom` summed across the list.
pub open spec fn total_of(s: Seq<Coin>, denom: Seq<char>) -> int
    decreases s.len(),
{
    if s.len() == 0 {
        0
    } else {
        (if s[0].denom@ == denom {
            s[0].amount as int
        } else {
            0
        }) + total_of(s.skip(1), denom)
    }
}

/// Well-formed funds: denominations unique within the list, every amount
/// positive.
pub open spec fn wf_funds(s: Seq<Coin>) -> bool {
    &&& forall|i: int, j: int| 0 <= i < j < s.len() ==> s[i].denom@ != s[j].denom@
    &&& forall|i: int| 0 <= i < s.len() ==> s[i].amount > 0
}

/// Two funds lists carry the same value: every denomination totals the same.
pub open spec fn funds_equiv(a: Seq<Coin>, b: Seq<Coin>) -> bool {
    forall|d: Seq<char>| total_of(a, d) == total_of(b, d)
}

/// A denomination that occurs nowhere in the list totals zero.
proof fn lemma_total_absent(s: Seq<Coin>, d: Seq<char>)
    requires
        forall|i: int| 0 <= i < s.len() ==> s[i].denom@ != d,
    ensures
        total_of(s, d) == 0,
    decreases s.len(),
{
    if s.len() > 0 {
        assert(forall|i: int| 0 <= i < s.skip(1).len() ==> s.skip(1)[i] == s[i + 1]);
        lemma_total_absent(s.skip(1), d);
    }
}

/// With unique denominations, the total of a denomination that occurs at
/// index `i` is exactly the amount stored there.
proof fn lemma_total_at(s: Seq<Coin>, i: int)
    requires
        forall|k: int, l: int| 0 <= k < l < s.len() ==> s[k].denom@ != s[l].denom@,
        0 <= i < s.len(),
    ensures
        total_of(s, s[i].denom@) == s[i].amount,
    decreases s.len(),
{
    assert(forall|k: int| 0 <= k < s.skip(1).len() ==> s.skip(1)[k] == s[k + 1]);
    if i == 0 {
        lemma_total_absent(s.skip(1), s[0].denom@);
    } else {
        lemma_total_at(s.skip(1), i - 1);
    }
}

/// Looks a denomination up in a well-formed funds list.
pub fn lookup_amount(v: &Vec<Coin>, denom: &String) -> (r: Option<u128>)
    requires
        wf_funds(v@),
    ensures
        r matches Some(a) ==> total_of(v@, denom@) == a,
        r is None ==> total_of(v@, denom@) == 0,
{
    let mut i: usize = 0;
    while i < v.len()
        invariant
            i <= v.len(),
            wf_funds(v@),
            forall|k: int| 0 <= k < i ==> v@[k].denom@ != denom@,
        decreases v.len() - i,
    {
        if v[i].denom == *denom {
            proof {
                lemma_total_at(v@, i as int);
            }
            return Some(v[i].amount);
        }
        i += 1;
    }
    proof {
        lemma_total_absent(v@, denom@);
    }
    None
}

/// Every coin of `a` is matched in `b`: same denomination, same total.
spec fn included(a: Seq<Coin>, b: Seq<Coin>) -> bool {
    forall|i: int| 0 <= i < a.len() ==> total_of(b, #[trigger] a[i].denom@) == a[i].amount
}

fn funds_included(a: &Vec<Coin>, b: &Vec<Coin>) -> (r: bool)
    requires
        wf_funds(a@),
        wf_funds(b@),
    ensures
        r == included(a@, b@),
{
    let mut i: usize = 0;
    while i < a.len()
        invariant
            i <= a.len(),
            wf_funds(a@),
            wf_funds(b@),
            forall|k: int| 0 <= k < i ==> total_of(b@, #[trigger] a@[k].denom@) == a@[k].amount,
        decreases a.len() - i,
    {
        proof {
            lemma_total_at(a@, i as int);
        }
        match lookup_amount(b, &a[i].denom) {
            Some(amt) => {
                if amt != a[i].amount {
                    return false;
                }
            },
            None => {
                return false;
            },
        }
        i += 1;
    }
    true
}

/// Mutual inclusion of well-formed lists is exactly value equality.
proof fn lemma_included_equiv(a: Seq<Coin>, b: Seq<Coin>)
    requires
        wf_funds(a),
        wf_funds(b),
    ensures
        funds_equiv(a, b) <==> (included(a, b) && included(b, a)),
{
    if included(a, b) && included(b, a) {
        assert forall|d: Seq<char>| total_of(a, d) == total_of(b, d) by {
            if exists|i: int| 0 <= i < a.len() && a[i].denom@ == d {
                let i = choose|i: int| 0 <= i < a.len() && a[i].denom@ == d;
                lemma_total_at(a, i);
            } else {
                lemma_total_absent(a, d);
                if exists|j: int| 0 <= j < b.len() && b[j].denom@ == d {
                    let j = choose|j: int| 0 <= j < b.len() && b[j].denom@ == d;
                    lemma_total_at(b, j);
                } else {
                    lemma_total_absent(b, d);
                }
            }
        }
    }
    if funds_equiv(a, b) {
        assert forall|i: int| 0 <= i < a.len() implies total_of(b, #[trigger] a[i].denom@)
            == a[i].amount by {
            lemma_total_at(a, i);
        }
        assert forall|j: int| 0 <= j < b.len() implies total_of(a, #[trigger] b[j].denom@)
            == b[j].amount by {
            lemma_total_at(b, j);
        }
    }
}

/// Decides whether two well-formed funds lists carry the same value.
pub fn funds_match(a: &Vec<Coin>, b: &Vec<Coin>) -> (r: bool)
    requires
        wf_funds(a@),
        wf_funds(b@),
    ensures
        r == funds_equiv(a@, b@),
{
    proof {
        lemma_included_equiv(a@, b@);
    }
    let forward = funds_included(a, b);
    let backward = funds_included(b, a);
    forward && backward
}

/// Copies a funds list.
pub fn clone_coins(v: &Vec<Coin>) -> (r: Vec<Coin>)
    ensures
        r@ == v@,
{
    let mut r: Vec<Coin> = Vec::new();
    let mut i: usize = 0;
    while i < v.len()
        invariant
            i <= v.len(),
            r@ =~= v@.subrange(0, i as int),
        decreases v.len() - i,
    {
        r.push(Coin { denom: v[i].denom.clone(), amount: v[i].amount });
        i += 1;
    }
    proof {
        assert(r@ =~= v@);
    }
    r
}

} // verus!
