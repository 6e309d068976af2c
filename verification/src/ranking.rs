//! Newest-first order of records by a timestamp key: a stable sort by
//! descending key, given as the sequence of positions it visits.

use vstd::prelude::*;
use crate::text::{lex_le, owned, str_eq, str_le, views};

verus! {

/// `i` placed into the position order `order` after every position `p` for
/// which `ahead(p, i)` holds, counted from the front.
pub open spec fn insert_by(ahead: spec_fn(usize, usize) -> bool, order: Seq<usize>, i: usize) -> Seq<usize>
    decreases order.len(),
{
    if order.len() == 0 {
        seq![i]
    } else if ahead(order[0], i) {
        seq![order[0]] + insert_by(ahead, order.drop_first(), i)
    } else {
        seq![i] + order
    }
}

/// The positions `0..n`, each inserted in turn by `insert_by`: an insertion
/// sort that keeps positions in their order while `ahead` lets them be.
pub open spec fn order_upto(ahead: spec_fn(usize, usize) -> bool, n: nat) -> Seq<usize>
    decreases n,
{
    if n == 0 {
        seq![]
    } else {
        insert_by(ahead, order_upto(ahead, (n - 1) as nat), (n - 1) as usize)
    }
}

/// Position `a` stays ahead of position `b` when its key is at least as large.
pub open spec fn key_at_least(keys: Seq<u64>) -> spec_fn(usize, usize) -> bool {
    |a: usize, b: usize| keys[a as int] >= keys[b as int]
}

/// All positions of `keys`, by descending key; equal keys keep their order.
pub open spec fn desc_order(keys: Seq<u64>) -> Seq<usize> {
    order_upto(key_at_least(keys), keys.len())
}

/// Where `insert_by` puts `i`: after the leading run of positions that stay
/// ahead of it.
pub proof fn lemma_insert_by_at(ahead: spec_fn(usize, usize) -> bool, order: Seq<usize>, i: usize, p: int)
    requires
        0 <= p <= order.len(),
        forall|k: int| 0 <= k < p ==> ahead(order[k], i),
        p < order.len() ==> !ahead(order[p], i),
    ensures
        insert_by(ahead, order, i) == order.subrange(0, p) + seq![i] + order.subrange(p, order.len() as int),
    decreases p,
{
    if p == 0 {
        if order.len() == 0 {
            assert(order.subrange(0, 0) + seq![i] + order.subrange(0, 0) =~= seq![i]);
        } else {
            assert(order.subrange(0, 0) + seq![i] + order.subrange(0, order.len() as int) =~= seq![i] + order);
        }
    } else {
        lemma_insert_by_at(ahead, order.drop_first(), i, p - 1);
        assert(seq![order[0]] + (order.drop_first().subrange(0, p - 1) + seq![i]
            + order.drop_first().subrange(p - 1, order.len() - 1))
            =~= order.subrange(0, p) + seq![i] + order.subrange(p, order.len() as int));
    }
}

proof fn lemma_insert_by_len(ahead: spec_fn(usize, usize) -> bool, order: Seq<usize>, i: usize)
    ensures
        insert_by(ahead, order, i).len() == order.len() + 1,
    decreases order.len(),
{
    if order.len() > 0 {
        lemma_insert_by_len(ahead, order.drop_first(), i);
    }
}

proof fn lemma_insert_by_elems(ahead: spec_fn(usize, usize) -> bool, order: Seq<usize>, i: usize, bound: nat)
    requires
        i < bound,
        forall|k: int| 0 <= k < order.len() ==> order[k] < bound,
    ensures
        forall|k: int| 0 <= k < insert_by(ahead, order, i).len() ==> insert_by(ahead, order, i)[k] < bound,
    decreases order.len(),
{
    lemma_insert_by_len(ahead, order, i);
    if order.len() > 0 {
        lemma_insert_by_elems(ahead, order.drop_first(), i, bound);
        lemma_insert_by_len(ahead, order.drop_first(), i);
        if ahead(order[0], i) {
            let rest = insert_by(ahead, order.drop_first(), i);
            assert forall|k: int| 0 <= k < (seq![order[0]] + rest).len() implies (seq![order[0]] + rest)[k] < bound by {
                if k > 0 {
                    assert((seq![order[0]] + rest)[k] == rest[k - 1]);
                }
            }
        }
    }
}

/// The order of the first `n` positions has `n` entries, each below `n`.
pub proof fn lemma_order_upto_len(ahead: spec_fn(usize, usize) -> bool, n: nat)
    ensures
        order_upto(ahead, n).len() == n,
        forall|k: int| 0 <= k < n ==> order_upto(ahead, n)[k] < n,
    decreases n,
{
    if n > 0 {
        lemma_order_upto_len(ahead, (n - 1) as nat);
        lemma_insert_by_len(ahead, order_upto(ahead, (n - 1) as nat), (n - 1) as usize);
        lemma_insert_by_elems(ahead, order_upto(ahead, (n - 1) as nat), (n - 1) as usize, n);
    }
}

/// Each position of `order` stays ahead of every later one.
pub open spec fn sorted_by(ahead: spec_fn(usize, usize) -> bool, order: Seq<usize>) -> bool {
    forall|j: int, k: int| 0 <= j < k < order.len() ==> #[trigger] ahead(order[j], order[k])
}

/// `ahead` orders any two positions one way or the other, and transitively.
pub open spec fn total_preorder(ahead: spec_fn(usize, usize) -> bool) -> bool {
    &&& forall|a: usize, b: usize| #[trigger] ahead(a, b) || ahead(b, a)
    &&& forall|a: usize, b: usize, c: usize| #[trigger] ahead(a, b) && #[trigger] ahead(b, c) ==> ahead(a, c)
}

proof fn lemma_insert_by_contents(ahead: spec_fn(usize, usize) -> bool, order: Seq<usize>, i: usize)
    ensures
        forall|x: usize| #[trigger] insert_by(ahead, order, i).contains(x) <==> (order.contains(x) || x == i),
        order.no_duplicates() && !order.contains(i) ==> insert_by(ahead, order, i).no_duplicates(),
    decreases order.len(),
{
    let r = insert_by(ahead, order, i);
    if order.len() == 0 {
        assert forall|x: usize| r.contains(x) <==> (order.contains(x) || x == i) by {
            if x == i { assert(r[0] == i); }
        }
    } else if ahead(order[0], i) {
        let t = order.drop_first();
        lemma_insert_by_contents(ahead, t, i);
        let rt = insert_by(ahead, t, i);
        assert(r == seq![order[0]] + rt);
        assert forall|x: usize| r.contains(x) <==> (order.contains(x) || x == i) by {
            if r.contains(x) {
                let a = choose|a: int| 0 <= a < r.len() && r[a] == x;
                if a > 0 {
                    assert(rt[a - 1] == x);
                    assert(rt.contains(x));
                    if t.contains(x) {
                        let b = choose|b: int| 0 <= b < t.len() && t[b] == x;
                        assert(order[b + 1] == x);
                        assert(order.contains(x));
                    }
                } else {
                    assert(order[0] == x);
                    assert(order.contains(x));
                }
            }
            if order.contains(x) {
                let b = choose|b: int| 0 <= b < order.len() && order[b] == x;
                if b == 0 { assert(r[0] == x); } else { assert(t[b - 1] == x); assert(t.contains(x)); assert(rt.contains(x)); let a = choose|a: int| 0 <= a < rt.len() && rt[a] == x; assert(r[a + 1] == x); }
            }
            if x == i { assert(insert_by(ahead, t, i).contains(x)); assert(rt.contains(x)); let a = choose|a: int| 0 <= a < rt.len() && rt[a] == x; assert(r[a + 1] == x); }
        }
        if order.no_duplicates() && !order.contains(i) {
            assert(t.no_duplicates()) by {
                assert forall|a: int, b: int| 0 <= a < t.len() && 0 <= b < t.len() && a != b implies t[a] != t[b] by {
                    assert(t[a] == order[a + 1] && t[b] == order[b + 1]);
                }
            }
            assert(!t.contains(i)) by {
                if t.contains(i) { let b = choose|b: int| 0 <= b < t.len() && t[b] == i; assert(order[b + 1] == i); }
            }
            assert(!rt.contains(order[0])) by {
                if t.contains(order[0]) { let b = choose|b: int| 0 <= b < t.len() && t[b] == order[0]; assert(order[b + 1] == order[0]); }
                assert(order.contains(order[0]));
            }
            assert forall|a: int, b: int| 0 <= a < r.len() && 0 <= b < r.len() && a != b implies r[a] != r[b] by {
                if a > 0 && b > 0 {
                    assert(r[a] == rt[a - 1] && r[b] == rt[b - 1]);
                } else if a == 0 {
                    assert(r[b] == rt[b - 1]);
                } else {
                    assert(r[a] == rt[a - 1]);
                }
            }
        }
    } else {
        assert(r == seq![i] + order);
        assert forall|x: usize| r.contains(x) <==> (order.contains(x) || x == i) by {
            if r.contains(x) {
                let a = choose|a: int| 0 <= a < r.len() && r[a] == x;
                if a > 0 { assert(order[a - 1] == x); }
            }
            if order.contains(x) {
                let b = choose|b: int| 0 <= b < order.len() && order[b] == x;
                assert(r[b + 1] == x);
            }
            if x == i { assert(r[0] == x); }
        }
        if order.no_duplicates() && !order.contains(i) {
            assert forall|a: int, b: int| 0 <= a < r.len() && 0 <= b < r.len() && a != b implies r[a] != r[b] by {
                if a > 0 && b > 0 {
                    assert(r[a] == order[a - 1] && r[b] == order[b - 1]);
                } else if a == 0 {
                    assert(r[b] == order[b - 1]);
                    assert(order.contains(order[b - 1]));
                } else {
                    assert(r[a] == order[a - 1]);
                    assert(order.contains(order[a - 1]));
                }
            }
        }
    }
}

proof fn lemma_insert_by_sorted(ahead: spec_fn(usize, usize) -> bool, order: Seq<usize>, i: usize)
    requires
        total_preorder(ahead),
        sorted_by(ahead, order),
    ensures
        sorted_by(ahead, insert_by(ahead, order, i)),
    decreases order.len(),
{
    let r = insert_by(ahead, order, i);
    if order.len() == 0 {
    } else if ahead(order[0], i) {
        let t = order.drop_first();
        assert(sorted_by(ahead, t)) by {
            assert forall|j: int, k: int| 0 <= j < k < t.len() implies #[trigger] ahead(t[j], t[k]) by {
                assert(t[j] == order[j + 1] && t[k] == order[k + 1]);
            }
        }
        lemma_insert_by_sorted(ahead, t, i);
        lemma_insert_by_contents(ahead, t, i);
        let rt = insert_by(ahead, t, i);
        assert(r == seq![order[0]] + rt);
        assert forall|j: int, k: int| 0 <= j < k < r.len() implies #[trigger] ahead(r[j], r[k]) by {
            if j > 0 {
                assert(r[j] == rt[j - 1] && r[k] == rt[k - 1]);
            } else {
                assert(r[k] == rt[k - 1]);
                assert(rt.contains(rt[k - 1]));
                if rt[k - 1] != i {
                    assert(t.contains(rt[k - 1]));
                    let b = choose|b: int| 0 <= b < t.len() && t[b] == rt[k - 1];
                    assert(order[b + 1] == t[b]);
                    assert(ahead(order[0], order[b + 1]));
                }
            }
        }
    } else {
        assert(ahead(i, order[0]));
        assert(r == seq![i] + order);
        assert forall|j: int, k: int| 0 <= j < k < r.len() implies #[trigger] ahead(r[j], r[k]) by {
            if j > 0 {
                assert(r[j] == order[j - 1] && r[k] == order[k - 1]);
            } else {
                assert(r[k] == order[k - 1]);
                if k - 1 > 0 {
                    assert(ahead(order[0], order[k - 1]));
                    assert(ahead(i, order[0]) && ahead(order[0], order[k - 1]));
                }
            }
        }
    }
}

/// The order of the first `n` positions visits each of them once, each one
/// ahead of those after it when `ahead` is a total preorder.
pub proof fn lemma_order_upto_sorted(ahead: spec_fn(usize, usize) -> bool, n: nat)
    requires
        total_preorder(ahead),
        n <= usize::MAX,
    ensures
        sorted_by(ahead, order_upto(ahead, n)),
        order_upto(ahead, n).no_duplicates(),
    decreases n,
{
    if n > 0 {
        let prev = order_upto(ahead, (n - 1) as nat);
        lemma_order_upto_sorted(ahead, (n - 1) as nat);
        lemma_order_upto_len(ahead, (n - 1) as nat);
        lemma_insert_by_sorted(ahead, prev, (n - 1) as usize);
        lemma_insert_by_contents(ahead, prev, (n - 1) as usize);
        assert(!prev.contains((n - 1) as usize)) by {
            if prev.contains((n - 1) as usize) {
                let b = choose|b: int| 0 <= b < prev.len() && prev[b] == (n - 1) as usize;
                assert(prev[b] < n - 1);
            }
        }
    }
}

/// The positions of `keys` by descending key, equal keys in their order.
pub fn desc_positions(keys: &Vec<u64>) -> (r: Vec<usize>)
    ensures
        r@ == desc_order(keys@),
        r@.len() == keys@.len(),
        forall|k: int| 0 <= k < r@.len() ==> r@[k] < keys@.len(),
{
    let mut order: Vec<usize> = Vec::new();
    let mut i: usize = 0;
    while i < keys.len()
        invariant
            i <= keys@.len(),
            order@ == order_upto(key_at_least(keys@), i as nat),
        decreases keys.len() - i,
    {
        proof {
            lemma_order_upto_len(key_at_least(keys@), i as nat);
        }
        let mut p: usize = 0;
        while p < order.len() && keys[order[p]] >= keys[i]
            invariant
                p <= order@.len(),
                i < keys@.len(),
                order@ == order_upto(key_at_least(keys@), i as nat),
                forall|k: int| 0 <= k < order@.len() ==> order@[k] < i,
                forall|k: int| 0 <= k < p ==> keys@[order@[k] as int] >= keys@[i as int],
            decreases order@.len() - p,
        {
            p = p + 1;
        }
        proof {
            lemma_insert_by_at(key_at_least(keys@), order@, i, p as int);
        }
        order.insert(p, i);
        i = i + 1;
    }
    proof {
        lemma_order_upto_len(key_at_least(keys@), keys@.len());
    }
    order
}

/// `a` comes strictly before `b`.
pub open spec fn lex_lt(a: Seq<char>, b: Seq<char>) -> bool {
    lex_le(a, b) && a != b
}

/// Each entry comes strictly before the next.
pub open spec fn strictly_sorted(v: Seq<Seq<char>>) -> bool {
    forall|i: int| 0 <= i < v.len() - 1 ==> lex_lt(#[trigger] v[i], v[i + 1])
}

pub(crate) proof fn lemma_lex_total(a: Seq<char>, b: Seq<char>)
    ensures
        !lex_le(a, b) ==> lex_le(b, a),
    decreases a.len(),
{
    if a.len() > 0 && b.len() > 0 && (a[0] as u32) == (b[0] as u32) {
        lemma_lex_total(a.drop_first(), b.drop_first());
    }
}


proof fn lemma_insert_members(before: Seq<Seq<char>>, p: int, x: Seq<char>)
    requires
        0 <= p <= before.len(),
    ensures
        forall|c: Seq<char>| before.insert(p, x).contains(c) <==> (before.contains(c) || c == x),
{
    let out = before.insert(p, x);
    assert forall|c: Seq<char>| out.contains(c) <==> (before.contains(c) || c == x) by {
        if out.contains(c) {
            let a = choose|a: int| 0 <= a < out.len() && out[a] == c;
            if a < p {
                assert(before[a] == c);
            } else if a > p {
                assert(before[a - 1] == c);
            }
        }
        if before.contains(c) {
            let a = choose|a: int| 0 <= a < before.len() && before[a] == c;
            if a < p {
                assert(out[a] == c);
            } else {
                assert(out[a + 1] == c);
            }
        }
        if c == x {
            assert(out[p] == c);
        }
    }
}

proof fn lemma_insert_sorted(before: Seq<Seq<char>>, p: int, x: Seq<char>)
    requires
        0 <= p <= before.len(),
        strictly_sorted(before),
        p > 0 ==> lex_lt(before[p - 1], x),
        p < before.len() ==> lex_lt(x, before[p]),
    ensures
        strictly_sorted(before.insert(p, x)),
{
    let out = before.insert(p, x);
    assert forall|a: int| 0 <= a < out.len() - 1 implies lex_lt(#[trigger] out[a], out[a + 1]) by {
        if a + 1 < p {
            assert(out[a] == before[a] && out[a + 1] == before[a + 1]);
        } else if a + 1 == p {
            assert(out[a] == before[a]);
        } else if a == p {
            assert(out[a + 1] == before[a]);
        } else {
            assert(out[a] == before[a - 1] && out[a + 1] == before[a]);
        }
    }
}

pub fn holds_text(v: &Vec<String>, x: &str) -> (r: bool)
    ensures
        r == views(v@).contains(x@),
{
    let mut k: usize = 0;
    while k < v.len()
        invariant
            k <= v@.len(),
            forall|j: int| 0 <= j < k ==> v@[j]@ != x@,
        decreases v.len() - k,
    {
        if str_eq(v[k].as_str(), x) {
            assert(views(v@)[k as int] == x@);
            return true;
        }
        k = k + 1;
    }
    assert forall|j: int| 0 <= j < views(v@).len() implies views(v@)[j] != x@ by {
        assert(views(v@)[j] == v@[j]@);
    }
    false
}

/// The texts of `items`, each once, in ascending order.
pub fn sorted_distinct(items: &Vec<String>) -> (r: Vec<String>)
    ensures
        strictly_sorted(views(r@)),
        forall|c: Seq<char>| views(r@).contains(c) <==> views(items@).contains(c),
{
    let ghost s = views(items@);
    let mut out: Vec<String> = Vec::new();
    let mut i: usize = 0;
    while i < items.len()
        invariant
            s == views(items@),
            i <= s.len(),
            strictly_sorted(views(out@)),
            forall|c: Seq<char>| views(out@).contains(c) <==> exists|j: int| 0 <= j < i && s[j] == c,
        decreases items.len() - i,
    {
        let x = items[i].as_str();
        assert(s[i as int] == x@);
        let ghost before = views(out@);
        let present = holds_text(&out, x);
        if !present {
            let mut p: usize = 0;
            while p < out.len() && !str_le(x, out[p].as_str())
                invariant
                    p <= out@.len(),
                    forall|k: int| 0 <= k < p ==> !lex_le(x@, out@[k]@),
                decreases out@.len() - p,
            {
                p = p + 1;
            }
            proof {
                if p > 0 {
                    lemma_lex_total(x@, out@[p - 1]@);
                    assert(before[p - 1] == out@[p - 1]@);
                }
                if p < before.len() {
                    assert(before[p as int] == out@[p as int]@);
                }
                lemma_insert_sorted(before, p as int, x@);
                lemma_insert_members(before, p as int, x@);
            }
            out.insert(p, owned(x));
            assert(views(out@) =~= before.insert(p as int, x@));
        }
        assert forall|c: Seq<char>| views(out@).contains(c) <==> exists|j: int| 0 <= j < i + 1 && s[j] == c by {
            if exists|j: int| 0 <= j < i + 1 && s[j] == c {
                let j = choose|j: int| 0 <= j < i + 1 && s[j] == c;
                if j < i {
                    assert(before.contains(c));
                }
            }
            if before.contains(c) {
                let j = choose|j: int| 0 <= j < i && s[j] == c;
                assert(0 <= j < i + 1 && s[j] == c);
            }
        }
        i = i + 1;
    }
    assert forall|c: Seq<char>| views(out@).contains(c) <==> s.contains(c) by {
        if s.contains(c) {
            let j = choose|j: int| 0 <= j < s.len() && s[j] == c;
            assert(0 <= j < i && s[j] == c);
        }
        if views(out@).contains(c) {
            let j = choose|j: int| 0 <= j < i && s[j] == c;
            assert(s[j] == c);
        }
    }
    out
}

/// Each entry is at most every entry after it.
pub open spec fn sorted_texts(v: Seq<Seq<char>>) -> bool {
    forall|i: int, j: int| 0 <= i < j < v.len() ==> lex_le(#[trigger] v[i], #[trigger] v[j])
}

pub(crate) proof fn lemma_lex_trans(a: Seq<char>, b: Seq<char>, c: Seq<char>)
    requires
        lex_le(a, b),
        lex_le(b, c),
    ensures
        lex_le(a, c),
    decreases a.len(),
{
    if a.len() > 0 && b.len() > 0 && c.len() > 0 && (a[0] as u32) == (b[0] as u32) && (b[0] as u32) == (c[0] as u32) {
        lemma_lex_trans(a.drop_first(), b.drop_first(), c.drop_first());
    }
}

/// The texts of `items` in ascending order, repeats kept; equal texts keep
/// their order.
pub fn sort_texts(items: &Vec<String>) -> (r: Vec<String>)
    ensures
        sorted_texts(views(r@)),
        views(r@).to_multiset() == views(items@).to_multiset(),
{
    let ghost s = views(items@);
    let mut out: Vec<String> = Vec::new();
    let mut i: usize = 0;
    assert(s.subrange(0, 0) =~= Seq::<Seq<char>>::empty());
    assert(views(out@) =~= Seq::<Seq<char>>::empty());
    while i < items.len()
        invariant
            s == views(items@),
            i <= s.len(),
            sorted_texts(views(out@)),
            views(out@).to_multiset() == s.subrange(0, i as int).to_multiset(),
        decreases items.len() - i,
    {
        let x = items[i].as_str();
        assert(s[i as int] == x@);
        let ghost before = views(out@);
        let mut p: usize = 0;
        while p < out.len() && str_le(out[p].as_str(), x)
            invariant
                p <= out@.len(),
                before == views(out@),
                forall|k: int| 0 <= k < p ==> lex_le(out@[k]@, x@),
            decreases out@.len() - p,
        {
            p = p + 1;
        }
        proof {
            if p < before.len() {
                assert(before[p as int] == out@[p as int]@);
                lemma_lex_total(before[p as int], x@);
            }
        }
        out.insert(p, owned(x));
        proof {
            let after = views(out@);
            assert(after =~= before.insert(p as int, x@));
            assert forall|a: int, b: int| 0 <= a < b < after.len() implies lex_le(#[trigger] after[a], #[trigger] after[b]) by {
                if b < p {
                    assert(after[a] == before[a] && after[b] == before[b]);
                } else if b == p {
                    assert(after[a] == before[a]);
                    assert(before[a] == out@[a]@);
                } else if a < p {
                    assert(after[a] == before[a] && after[b] == before[b - 1]);
                } else if a == p {
                    assert(after[b] == before[b - 1]);
                    if b - 1 > p {
                        lemma_lex_trans(x@, before[p as int], before[b - 1]);
                    }
                } else {
                    assert(after[a] == before[a - 1] && after[b] == before[b - 1]);
                }
            }
            assert(s.subrange(0, i + 1) =~= s.subrange(0, i as int).push(x@));
            vstd::seq_lib::to_multiset_insert(before, p as int, x@);
            vstd::seq_lib::to_multiset_build(s.subrange(0, i as int), x@);
            assert(after.to_multiset() == s.subrange(0, i + 1).to_multiset());
        }
        i = i + 1;
    }
    assert(s.subrange(0, s.len() as int) =~= s);
    out
}

} // verus!
