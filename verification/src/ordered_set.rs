use vstd::prelude::*;

use crate::identifiers::texts;
use crate::text::chars_of;

verus! {

/// `a` sorts strictly before `b`: lexicographic order of code points, which is
/// also the byte order of their UTF-8 encodings (the order of `String`'s `Ord`).
pub open spec fn text_less(a: Seq<char>, b: Seq<char>) -> bool
    decreases a.len(),
{
    if a.len() == 0 {
        b.len() > 0
    } else if b.len() == 0 {
        false
    } else if a[0] != b[0] {
        (a[0] as u32) < (b[0] as u32)
    } else {
        text_less(a.drop_first(), b.drop_first())
    }
}

/// Every entry sorts strictly before every later entry.
pub open spec fn strictly_ascending(s: Seq<Seq<char>>) -> bool {
    forall|i: int, j: int| 0 <= i < j < s.len() ==> text_less(#[trigger] s[i], #[trigger] s[j])
}

/// No text sorts before itself.
pub proof fn lemma_text_less_irreflexive(a: Seq<char>)
    ensures
        !text_less(a, a),
    decreases a.len(),
{
    if a.len() > 0 {
        lemma_text_less_irreflexive(a.drop_first());
    }
}

/// Of two different texts, one sorts before the other, and never both.
pub proof fn lemma_text_less_total(a: Seq<char>, b: Seq<char>)
    ensures
        a != b ==> text_less(a, b) || text_less(b, a),
        !(text_less(a, b) && text_less(b, a)),
    decreases a.len(),
{
    if a.len() > 0 && b.len() > 0 && a[0] == b[0] {
        lemma_text_less_total(a.drop_first(), b.drop_first());
        if a != b {
            assert(a.drop_first() != b.drop_first()) by {
                if a.drop_first() == b.drop_first() {
                    assert(a =~= seq![a[0]] + a.drop_first());
                    assert(b =~= seq![b[0]] + b.drop_first());
                }
            }
        }
    } else if a.len() == 0 && b.len() == 0 {
        assert(a =~= b);
    } else if a.len() > 0 && b.len() > 0 {
        assert((a[0] as u32) != (b[0] as u32)) by {
            vstd::utf8::char_u32_cast(a[0], a[0] as u32);
            vstd::utf8::char_u32_cast(b[0], b[0] as u32);
        }
    }
}

/// The order is transitive.
pub proof fn lemma_text_less_transitive(a: Seq<char>, b: Seq<char>, c: Seq<char>)
    requires
        text_less(a, b),
        text_less(b, c),
    ensures
        text_less(a, c),
    decreases a.len(),
{
    if a.len() > 0 && b.len() > 0 && c.len() > 0 && a[0] == b[0] && b[0] == c[0] {
        lemma_text_less_transitive(a.drop_first(), b.drop_first(), c.drop_first());
    }
}

/// Decides [`text_less`].
pub fn text_sorts_before(a: &str, b: &str) -> (result: bool)
    ensures
        result == text_less(a@, b@),
{
    let x = chars_of(a);
    let y = chars_of(b);
    let mut i: usize = 0;
    assert(x@.skip(0) =~= x@);
    assert(y@.skip(0) =~= y@);
    while i < x.len() && i < y.len() && x[i] == y[i]
        invariant
            0 <= i <= x@.len(),
            i <= y@.len(),
            text_less(a@, b@) == text_less(x@.skip(i as int), y@.skip(i as int)),
            x@ == a@,
            y@ == b@,
        decreases x@.len() - i,
    {
        assert(x@.skip(i as int).drop_first() =~= x@.skip(i + 1));
        assert(y@.skip(i as int).drop_first() =~= y@.skip(i + 1));
        i = i + 1;
    }
    if i == x.len() {
        i < y.len()
    } else if i == y.len() {
        false
    } else {
        (x[i] as u32) < (y[i] as u32)
    }
}

/// Adds `value` to a strictly ascending list of texts, keeping it strictly
/// ascending (nothing changes when the text is already there).
pub fn insert_sorted(set: &mut Vec<String>, value: &str)
    requires
        strictly_ascending(texts(old(set)@)),
    ensures
        strictly_ascending(texts(final(set)@)),
        texts(final(set)@).to_set() == texts(old(set)@).to_set().insert(value@),
        texts(final(set)@).len() <= texts(old(set)@).len() + 1,
{
    let ghost before = texts(set@);
    let mut p: usize = 0;
    while p < set.len() && text_sorts_before(set[p].as_str(), value)
        invariant
            texts(set@) == before,
            strictly_ascending(before),
            0 <= p <= set@.len(),
            forall|q: int| 0 <= q < p ==> text_less(#[trigger] before[q], value@),
        decreases set@.len() - p,
    {
        p = p + 1;
    }
    if p < set.len() && set[p].as_str().len() == value.len() && crate::text::same_text(
        set[p].as_str(),
        value,
    ) {
        assert(before[p as int] == value@);
        assert(before.to_set() =~= before.to_set().insert(value@));
        return;
    }
    proof {
        if p < before.len() {
            lemma_text_less_total(before[p as int], value@);
        }
    }
    set.insert(p, value.to_owned());
    proof {
        let after = texts(set@);
        assert(after =~= before.insert(p as int, value@));
        assert forall|i: int, j: int| 0 <= i < j < after.len() implies text_less(
            #[trigger] after[i],
            #[trigger] after[j],
        ) by {
            if i < p && j < p {
            } else if i < p && j == p {
            } else if i < p {
                assert(after[j] == before[j - 1]);
                assert(text_less(before[i], before[j - 1]));
            } else if i == p {
                assert(after[j] == before[j - 1]);
                if j - 1 > p {
                    lemma_text_less_transitive(value@, before[p as int], before[j - 1]);
                }
            } else {
                assert(after[i] == before[i - 1]);
                assert(after[j] == before[j - 1]);
            }
        }
        assert forall|t: Seq<char>| after.to_set().contains(t) <==> before.to_set().insert(
            value@,
        ).contains(t) by {
            if after.to_set().contains(t) {
                let k = choose|k: int| 0 <= k < after.len() && after[k] == t;
                if k < p {
                    assert(before[k] == t);
                } else if k > p {
                    assert(before[k - 1] == t);
                }
            }
            if before.to_set().contains(t) {
                let k = choose|k: int| 0 <= k < before.len() && before[k] == t;
                if k < p {
                    assert(after[k] == t);
                } else {
                    assert(after[k + 1] == t);
                }
            }
            if t == value@ {
                assert(after[p as int] == t);
            }
        }
        assert(after.to_set() =~= before.to_set().insert(value@));
    }
}


/// Whether `values` are strictly ascending (see [`strictly_ascending`]).
pub fn strings_strictly_ascending(values: &[String]) -> (result: bool)
    ensures
        result == strictly_ascending(texts(values@)),
{
    let ghost t = texts(values@);
    if values.len() < 2 {
        return true;
    }
    let mut i: usize = 1;
    while i < values.len()
        invariant
            t == texts(values@),
            1 <= i <= values@.len(),
            forall|a: int, b: int| 0 <= a < b < i ==> text_less(#[trigger] t[a], #[trigger] t[b]),
        decreases values@.len() - i,
    {
        if !text_sorts_before(values[i - 1].as_str(), values[i].as_str()) {
            assert(!text_less(t[i - 1], t[i as int]));
            return false;
        }
        assert forall|a: int, b: int| 0 <= a < b < i + 1 implies text_less(
            #[trigger] t[a],
            #[trigger] t[b],
        ) by {
            if b == i && a < i - 1 {
                lemma_text_less_transitive(t[a], t[i - 1], t[b]);
            }
        }
        i = i + 1;
    }
    true
}


/// Two strictly ascending lists of texts that hold the same texts are equal.
pub proof fn lemma_ascending_unique(a: Seq<Seq<char>>, b: Seq<Seq<char>>)
    requires
        strictly_ascending(a),
        strictly_ascending(b),
        a.to_set() == b.to_set(),
    ensures
        a == b,
    decreases a.len(),
{
    if a.len() == 0 {
        if b.len() > 0 {
            assert(b.to_set().contains(b[0]));
        }
        assert(a =~= b);
    } else {
        assert(a.to_set().contains(a[0]));
        let j = choose|j: int| 0 <= j < b.len() && b[j] == a[0];
        assert(b.to_set().contains(b[0]));
        let i = choose|i: int| 0 <= i < a.len() && a[i] == b[0];
        if j > 0 && i > 0 {
            assert(text_less(b[0], b[j]));
            assert(text_less(a[0], a[i]));
            lemma_text_less_total(a[0], b[0]);
        } else if j > 0 {
            assert(text_less(b[0], b[j]));
            lemma_text_less_irreflexive(a[0]);
        } else if i > 0 {
            assert(text_less(a[0], a[i]));
            lemma_text_less_irreflexive(b[0]);
        }
        assert(a[0] == b[0]);
        let ra = a.drop_first();
        let rb = b.drop_first();
        assert forall|t: Seq<char>| ra.to_set().contains(t) <==> rb.to_set().contains(t) by {
            if ra.to_set().contains(t) {
                let k = choose|k: int| 0 <= k < ra.len() && ra[k] == t;
                assert(a[k + 1] == t);
                assert(text_less(a[0], t));
                lemma_text_less_irreflexive(t);
                assert(a.to_set().contains(t));
                let m = choose|m: int| 0 <= m < b.len() && b[m] == t;
                assert(m != 0);
                assert(rb[m - 1] == t);
            }
            if rb.to_set().contains(t) {
                let k = choose|k: int| 0 <= k < rb.len() && rb[k] == t;
                assert(b[k + 1] == t);
                assert(text_less(b[0], t));
                lemma_text_less_irreflexive(t);
                assert(b.to_set().contains(t));
                let m = choose|m: int| 0 <= m < a.len() && a[m] == t;
                assert(m != 0);
                assert(ra[m - 1] == t);
            }
        }
        assert(ra.to_set() =~= rb.to_set());
        assert forall|x: int, y: int| 0 <= x < y < ra.len() implies text_less(#[trigger] ra[x], #[trigger] ra[y]) by {
            assert(text_less(a[x + 1], a[y + 1]));
        }
        assert forall|x: int, y: int| 0 <= x < y < rb.len() implies text_less(#[trigger] rb[x], #[trigger] rb[y]) by {
            assert(text_less(b[x + 1], b[y + 1]));
        }
        lemma_ascending_unique(ra, rb);
        assert(a =~= seq![a[0]] + ra);
        assert(b =~= seq![b[0]] + rb);
    }
}

} // verus!
