use vstd::prelude::*;
use vstd::set_lib::{lemma_int_range, lemma_len_subset, lemma_map_size, set_int_range};

verus! {

pub open spec fn digits() -> Seq<char> {
    seq!['0', '1', '2', '3', '4', '5', '6', '7', '8', '9']
}

/// The decimal digits of `n`, most significant first.
pub open spec fn decimal(n: nat) -> Seq<char>
    decreases n,
{
    if n < 10 {
        seq![digits()[n as int]]
    } else {
        decimal(n / 10).push(digits()[(n % 10) as int])
    }
}

proof fn lemma_decimal_len(n: nat)
    ensures
        decimal(n).len() >= 1,
        n >= 10 ==> decimal(n).len() >= 2,
    decreases n,
{
    if n >= 10 {
        lemma_decimal_len(n / 10);
    }
}

proof fn lemma_decimal_injective(a: nat, b: nat)
    requires
        decimal(a) == decimal(b),
    ensures
        a == b,
    decreases a,
{
    lemma_decimal_len(a);
    lemma_decimal_len(b);
    if a < 10 && b < 10 {
        assert(decimal(a)[0] == digits()[a as int]);
        assert(decimal(b)[0] == digits()[b as int]);
    } else if a >= 10 && b >= 10 {
        let da = decimal(a);
        assert(da.last() == digits()[(a % 10) as int]);
        assert(decimal(b).last() == digits()[(b % 10) as int]);
        assert(da.drop_last() =~= decimal(a / 10));
        assert(decimal(b).drop_last() =~= decimal(b / 10));
        lemma_decimal_injective(a / 10, b / 10);
    }
}

/// The `k`-th name tried for a new item: `base` itself, then `base 2`, `base 3`, ...
pub open spec fn candidate(base: Seq<char>, k: nat) -> Seq<char> {
    if k <= 1 {
        base
    } else {
        base + seq![' '] + decimal(k)
    }
}

proof fn lemma_candidates_differ(base: Seq<char>, j: nat, k: nat)
    requires
        1 <= j < k,
    ensures
        candidate(base, j) != candidate(base, k),
{
    if j >= 2 {
        if candidate(base, j) == candidate(base, k) {
            let pre = base + seq![' '];
            assert(decimal(j) =~= candidate(base, j).skip(pre.len() as int));
            assert(decimal(k) =~= candidate(base, k).skip(pre.len() as int));
            lemma_decimal_injective(j, k);
        }
    } else {
        lemma_decimal_len(k);
        assert(candidate(base, k).len() > base.len());
    }
}

/// The first of `base`, `base 2`, `base 3`, ... that `existing` lacks.
pub open spec fn fresh_name(existing: Seq<Seq<char>>, base: Seq<char>) -> Seq<char> {
    candidate(
        base,
        choose|k: nat|
            k >= 1 && !existing.contains(candidate(base, k)) && forall|j: nat|
                1 <= j < k ==> existing.contains(#[trigger] candidate(base, j)),
    )
}

/// If `existing` holds the first `k` candidates, it has at least `k` items.
proof fn lemma_pigeonhole(existing: Seq<Seq<char>>, base: Seq<char>, k: nat)
    requires
        forall|j: nat| 1 <= j <= k ==> existing.contains(#[trigger] candidate(base, j)),
    ensures
        k <= existing.len(),
{
    let f = |i: int| candidate(base, i as nat);
    let xs = set_int_range(1, k as int + 1);
    lemma_int_range(1, k as int + 1);
    assert forall|a: int, b: int| xs.contains(a) && xs.contains(b) && #[trigger] f(a) == #[trigger] f(b) implies a == b by {
        if a < b {
            lemma_candidates_differ(base, a as nat, b as nat);
        } else if b < a {
            lemma_candidates_differ(base, b as nat, a as nat);
        }
    }
    let ys = xs.map(f);
    lemma_map_size(xs, ys, f);
    assert(ys.subset_of(existing.to_set())) by {
        assert forall|y| ys.contains(y) implies existing.to_set().contains(y) by {
            let i = choose|i: int| xs.contains(i) && f(i) == y;
            assert(existing.contains(candidate(base, i as nat)));
        }
    }
    lemma_len_subset(ys, existing.to_set());
    existing.lemma_cardinality_of_set();
}

fn digit(d: u128) -> (r: &'static str)
    requires
        d < 10,
    ensures
        r@ == seq![digits()[d as int]],
{
    proof {
        reveal_strlit("0");
        reveal_strlit("1");
        reveal_strlit("2");
        reveal_strlit("3");
        reveal_strlit("4");
        reveal_strlit("5");
        reveal_strlit("6");
        reveal_strlit("7");
        reveal_strlit("8");
        reveal_strlit("9");
    }
    let r = if d == 0 {
        "0"
    } else if d == 1 {
        "1"
    } else if d == 2 {
        "2"
    } else if d == 3 {
        "3"
    } else if d == 4 {
        "4"
    } else if d == 5 {
        "5"
    } else if d == 6 {
        "6"
    } else if d == 7 {
        "7"
    } else if d == 8 {
        "8"
    } else {
        "9"
    };
    assert(r@ =~= seq![digits()[d as int]]);
    r
}

/// The decimal digits of `n`.
pub fn decimal_string(n: u128) -> (r: String)
    ensures
        r@ == decimal(n as nat),
    decreases n,
{
    if n < 10 {
        String::from_str(digit(n))
    } else {
        let mut s = decimal_string(n / 10);
        s.append(digit(n % 10));
        assert(s@ =~= decimal((n / 10) as nat).push(digits()[(n % 10) as int]));
        s
    }
}

fn contains_name(existing: &Vec<String>, name: &String) -> (r: bool)
    ensures
        r == existing@.map_values(|s: String| s@).contains(name@),
{
    let ghost m = existing@.map_values(|s: String| s@);
    let mut i: usize = 0;
    while i < existing.len()
        invariant
            0 <= i <= existing@.len(),
            m == existing@.map_values(|s: String| s@),
            forall|j: int| 0 <= j < i ==> m[j] != name@,
        decreases existing@.len() - i,
    {
        if existing[i] == *name {
            assert(m[i as int] == name@);
            return true;
        }
        i += 1;
    }
    false
}

/// The first of `base`, `base 2`, `base 3`, ... that is not in `existing`.
pub fn make_fresh_name(existing: &Vec<String>, base: &String) -> (r: String)
    ensures
        r@ == fresh_name(existing@.map_values(|s: String| s@), base@),
        !existing@.map_values(|s: String| s@).contains(r@),
{
    let ghost m = existing@.map_values(|s: String| s@);
    let mut k: u128 = 1;
    let mut name = base.clone();
    while contains_name(existing, &name)
        invariant
            1 <= k <= m.len() + 1,
            m == existing@.map_values(|s: String| s@),
            name@ == candidate(base@, k as nat),
            forall|j: nat| 1 <= j < k ==> m.contains(#[trigger] candidate(base@, j)),
        decreases m.len() + 1 - k,
    {
        proof {
            assert forall|j: nat| 1 <= j <= k implies m.contains(#[trigger] candidate(base@, j)) by {
                if j == k {
                }
            }
            lemma_pigeonhole(m, base@, k as nat);
            assert(m.len() == existing.len());
        }
        k = k + 1;
        let mut next = base.clone();
        next.append(" ");
        let digits_of = decimal_string(k);
        next.append(digits_of.as_str());
        proof {
            reveal_strlit(" ");
            assert(next@ =~= base@ + seq![' '] + decimal(k as nat));
        }
        name = next;
    }
    proof {
        let kk = k as nat;
        assert(kk >= 1 && !m.contains(candidate(base@, kk)) && forall|j: nat|
            1 <= j < kk ==> m.contains(#[trigger] candidate(base@, j)));
        let c = choose|c: nat|
            c >= 1 && !m.contains(candidate(base@, c)) && forall|j: nat|
                1 <= j < c ==> m.contains(#[trigger] candidate(base@, j));
        if c < kk {
            assert(m.contains(candidate(base@, c)));
        } else if kk < c {
            assert(m.contains(candidate(base@, kk)));
        }
    }
    name
}

} // verus!
