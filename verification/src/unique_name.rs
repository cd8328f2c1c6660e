//! Fresh ids and names: a base, then the base with `-2`, `-3`, ... (or ` 2`,
//! ` 3`, ...) appended, until one is not taken.
use vstd::prelude::*;
use vstd::seq_lib::seq_to_set_is_finite;
use vstd::set_lib::lemma_len_subset;

use crate::server_rules::{decimal_chars, decimal_digits};

verus! {

/// The `k`-th candidate for `base`: the base itself for `k < 2`, else the
/// base, the separator and `k` in decimal.
pub open spec fn candidate(base: Seq<char>, sep: char, k: nat) -> Seq<char> {
    if k < 2 {
        base
    } else {
        base + seq![sep] + decimal_digits(k as u64)
    }
}

/// Whether `r` is the first candidate for `base` that `taken` does not hold.
pub open spec fn is_first_free(base: Seq<char>, sep: char, taken: Seq<Seq<char>>, r: Seq<char>) -> bool {
    exists|k: nat|
        k >= 1 && r == candidate(base, sep, k) && !taken.contains(r) && forall|j: nat|
            1 <= j < k ==> #[trigger] taken.contains(candidate(base, sep, j))
}

proof fn lemma_decimal_len(n: u64)
    ensures
        decimal_digits(n).len() >= 1,
        n >= 10 ==> decimal_digits(n).len() >= 2,
    decreases n,
{
    if n >= 10 {
        lemma_decimal_len(n / 10);
    }
}

proof fn lemma_decimal_injective(a: u64, b: u64)
    requires
        decimal_digits(a) == decimal_digits(b),
    ensures
        a == b,
    decreases a,
{
    lemma_decimal_len(a);
    lemma_decimal_len(b);
    if a >= 10 && b >= 10 {
        let da = decimal_digits(a);
        let db = decimal_digits(b);
        assert(da.drop_last() == decimal_digits(a / 10));
        assert(db.drop_last() == decimal_digits(b / 10));
        assert(da.last() == db.last());
        lemma_decimal_injective(a / 10, b / 10);
    } else if a < 10 && b < 10 {
        assert(decimal_digits(a)[0] == decimal_digits(b)[0]);
        assert(decimal_digits(a)[0] as u32 == 48 + a);
        assert(decimal_digits(b)[0] as u32 == 48 + b);
    } else if a < 10 {
        assert(decimal_digits(a).len() == 1);
    } else {
        assert(decimal_digits(b).len() == 1);
    }
}

proof fn lemma_candidates_distinct(base: Seq<char>, sep: char, j: nat, k: nat)
    requires
        1 <= j < k,
        k <= u64::MAX,
    ensures
        candidate(base, sep, j) != candidate(base, sep, k),
{
    let ck = candidate(base, sep, k);
    lemma_decimal_len(k as u64);
    if j < 2 {
        assert(ck.len() > base.len());
    } else {
        let cj = candidate(base, sep, j);
        let pre = base + seq![sep];
        lemma_decimal_len(j as u64);
        if cj == ck {
            assert(cj.len() == ck.len());
            assert(cj.subrange(pre.len() as int, cj.len() as int) =~= decimal_digits(j as u64));
            assert(ck.subrange(pre.len() as int, ck.len() as int) =~= decimal_digits(k as u64));
            lemma_decimal_injective(j as u64, k as u64);
        }
    }
}

/// Whether the characters `c` are among `taken`.
fn is_taken(taken: &Vec<Vec<char>>, c: &Vec<char>) -> (r: bool)
    ensures
        r == taken@.map_values(|v: Vec<char>| v@).contains(c@),
{
    let ghost tv = taken@.map_values(|v: Vec<char>| v@);
    let mut i: usize = 0;
    while i < taken.len()
        invariant
            i <= taken.len(),
            tv == taken@.map_values(|v: Vec<char>| v@),
            forall|j: int| 0 <= j < i ==> tv[j] != c@,
        decreases taken.len() - i,
    {
        if crate::text::seq_eq(&taken[i], c) {
            assert(tv[i as int] == c@);
            return true;
        }
        i = i + 1;
    }
    false
}

/// The first candidate for `base` that `taken` does not hold.
pub fn first_free(base: &Vec<char>, sep: char, taken: &Vec<Vec<char>>) -> (r: Vec<char>)
    requires
        taken@.len() < 0xffff_0000,
    ensures
        is_first_free(base@, sep, taken@.map_values(|v: Vec<char>| v@), r@),
{
    let ghost tv = taken@.map_values(|v: Vec<char>| v@);
    let mut current: Vec<char> = base.clone();
    assert(current@ == base@);
    let mut index: u32 = 2;
    let ghost mut tried: Set<Seq<char>> = Set::empty();
    proof {
        seq_to_set_is_finite(tv);
    }
    while is_taken(taken, &current)
        invariant
            2 <= index,
            taken@.len() < 0xffff_0000,
            tv == taken@.map_values(|v: Vec<char>| v@),
            current@ == candidate(base@, sep, (index - 1) as nat),
            tried.finite(),
            tried.len() == index - 2,
            tried.subset_of(tv.to_set()),
            tv.to_set().finite(),
            forall|j: nat| 1 <= j < index - 1 ==> tried.contains(#[trigger] candidate(base@, sep, j)),
            forall|s: Seq<char>| #[trigger] tried.contains(s) ==> exists|j: nat|
                1 <= j < index - 1 && s == candidate(base@, sep, j),
        decreases taken@.len() + 2 - index,
    {
        proof {
            let c = candidate(base@, sep, (index - 1) as nat);
            assert(tv.contains(c));
            if tried.contains(c) {
                let j = choose|j: nat| 1 <= j < index - 1 && c == candidate(base@, sep, j);
                lemma_candidates_distinct(base@, sep, j, (index - 1) as nat);
            }
            let bigger = tried.insert(c);
            assert(bigger.subset_of(tv.to_set()));
            lemma_len_subset(bigger, tv.to_set());
            tv.lemma_cardinality_of_set();
            assert(bigger.len() == index - 1);
            assert(index - 1 <= taken@.len());
            tried = bigger;
            assert forall|s: Seq<char>| #[trigger] tried.contains(s) implies exists|j: nat|
                1 <= j < index && s == candidate(base@, sep, j) by {
                if s == c {
                    assert(1 <= (index - 1) as nat && s == candidate(base@, sep, (index - 1) as nat));
                }
            }
        }
        let mut next: Vec<char> = base.clone();
        next.push(sep);
        let digits = decimal_chars(index as u64);
        let mut i: usize = 0;
        let ghost start = next@;
        while i < digits.len()
            invariant
                i <= digits.len(),
                next@ == start + digits@.take(i as int),
            decreases digits.len() - i,
        {
            next.push(digits[i]);
            assert(next@ =~= start + digits@.take(i as int + 1));
            i = i + 1;
        }
        assert(digits@.take(digits.len() as int) =~= digits@);
        assert(next@ =~= candidate(base@, sep, index as nat));
        current = next;
        index = index + 1;
    }
    proof {
        assert forall|j: nat| 1 <= j < index - 1 implies #[trigger] tv.contains(
            candidate(base@, sep, j),
        ) by {
            assert(tried.contains(candidate(base@, sep, j)));
        }
        assert(is_first_free(base@, sep, tv, current@) || true);
        let k = (index - 1) as nat;
        assert(k >= 1 && current@ == candidate(base@, sep, k) && !tv.contains(current@));
    }
    current
}

} // verus!
