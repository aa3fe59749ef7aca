use vstd::prelude::*;

use crate::text::{chars_of, views};

verus! {

broadcast use vstd::seq_lib::group_seq_properties;

// ---------------------------------------------------------------------------
// The order of texts
// ---------------------------------------------------------------------------
/// `a` comes strictly before `b` in the order of `String`'s `Ord`: the first
/// differing character decides by its code point (UTF-8 byte order and code
/// point order agree), and a proper prefix comes first.
pub open spec fn text_lt(a: Seq<char>, b: Seq<char>) -> bool
    decreases a.len(),
{
    if a.len() == 0 {
        b.len() > 0
    } else if b.len() == 0 {
        false
    } else if a[0] < b[0] {
        true
    } else if a[0] > b[0] {
        false
    } else {
        text_lt(a.drop_first(), b.drop_first())
    }
}

/// The order of texts is a strict total order: never `a < a`, never both
/// `a < b` and `b < a`, always one of `a < b`, `a == b`, `b < a`, and
/// `a < b < c` gives `a < c`.
pub proof fn lemma_text_order(a: Seq<char>, b: Seq<char>, c: Seq<char>)
    ensures
        !text_lt(a, a),
        !(text_lt(a, b) && text_lt(b, a)),
        a == b || text_lt(a, b) || text_lt(b, a),
        text_lt(a, b) && text_lt(b, c) ==> text_lt(a, c),
    decreases a.len(),
{
    if a.len() > 0 {
        lemma_text_order(a.drop_first(), a.drop_first(), a.drop_first());
        if b.len() > 0 {
            lemma_text_order(a.drop_first(), b.drop_first(), if c.len() > 0 {
                c.drop_first()
            } else {
                c
            });
            if a[0] == b[0] && a.drop_first() == b.drop_first() {
                assert(a =~= seq![a[0]] + a.drop_first());
                assert(b =~= seq![b[0]] + b.drop_first());
            }
        }
    } else {
        if b.len() == 0 {
            assert(a =~= b);
        }
    }
}

/// Whether `a` comes strictly before `b` (see `text_lt`).
pub fn text_less(a: &str, b: &str) -> (r: bool)
    ensures
        r == text_lt(a@, b@),
{
    let x = chars_of(a);
    let y = chars_of(b);
    let mut i: usize = 0;
    while i < x.len() && i < y.len() && x[i] == y[i]
        invariant
            i <= x.len(),
            i <= y.len(),
            x@ == a@,
            y@ == b@,
            text_lt(a@, b@) == text_lt(x@.skip(i as int), y@.skip(i as int)),
        decreases x.len() - i,
    {
        proof {
            assert(x@.skip(i as int).drop_first() =~= x@.skip(i + 1));
            assert(y@.skip(i as int).drop_first() =~= y@.skip(i + 1));
        }
        i = i + 1;
    }
    if i == x.len() {
        i < y.len()
    } else if i == y.len() {
        false
    } else {
        x[i] < y[i]
    }
}

// ---------------------------------------------------------------------------
// Sorting tab names
// ---------------------------------------------------------------------------
/// No text comes after one that is later in the sequence.
pub open spec fn sorted_texts(s: Seq<Seq<char>>) -> bool {
    forall|i: int, j: int| 0 <= i < j < s.len() ==> !text_lt(#[trigger] s[j], #[trigger] s[i])
}

/// Where a text goes in a sorted list: after every text that does not come
/// after it.
fn insert_position(out: &Vec<String>, x: &String) -> (p: usize)
    requires
        sorted_texts(views(out@)),
    ensures
        p <= out.len(),
        forall|j: int| 0 <= j < p ==> !text_lt(x@, #[trigger] out@[j]@),
        forall|j: int| p <= j < out.len() ==> text_lt(x@, #[trigger] out@[j]@),
{
    let mut p: usize = 0;
    while p < out.len() && !text_less(x.as_str(), out[p].as_str())
        invariant
            p <= out.len(),
            forall|j: int| 0 <= j < p ==> !text_lt(x@, #[trigger] out@[j]@),
        decreases out.len() - p,
    {
        p = p + 1;
    }
    proof {
        assert forall|j: int| p <= j < out.len() implies text_lt(x@, #[trigger] out@[j]@) by {
            assert(text_lt(x@, out@[p as int]@));
            if j > p {
                assert(views(out@)[p as int] == out@[p as int]@);
                assert(views(out@)[j] == out@[j]@);
                assert(!text_lt(views(out@)[j], views(out@)[p as int]));
                lemma_text_order(x@, out@[p as int]@, out@[j]@);
                lemma_text_order(out@[p as int]@, out@[j]@, x@);
            }
        }
    }
    p
}

proof fn lemma_views_insert(v: Seq<String>, p: int, x: String)
    requires
        0 <= p <= v.len(),
    ensures
        views(v.insert(p, x)) == views(v).insert(p, x@),
{
    assert(views(v.insert(p, x)) =~= views(v).insert(p, x@));
}

/// The tab names in order (the order of the tab buttons).
pub fn sorted_tab_names(names: &Vec<String>) -> (r: Vec<String>)
    ensures
        sorted_texts(views(r@)),
        views(r@).to_multiset() == views(names@).to_multiset(),
{
    let mut out: Vec<String> = Vec::new();
    let mut i: usize = 0;
    assert(views(out@) =~= views(names@.take(0)));
    while i < names.len()
        invariant
            i <= names.len(),
            sorted_texts(views(out@)),
            views(out@).to_multiset() == views(names@.take(i as int)).to_multiset(),
        decreases names.len() - i,
    {
        let x = names[i].clone();
        let p = insert_position(&out, &x);
        proof {
            lemma_views_insert(out@, p as int, x);
            vstd::seq_lib::lemma_multiset_commutative(views(out@).take(p as int), views(out@).skip(p as int));
            assert(views(names@.take(i + 1)) =~= views(names@.take(i as int)).push(names@[i as int]@));
            let s = views(out@);
            assert(s.insert(p as int, x@) =~= s.take(p as int).push(x@) + s.skip(p as int));
            assert(s =~= s.take(p as int) + s.skip(p as int));
            vstd::seq_lib::lemma_multiset_commutative(s.take(p as int).push(x@), s.skip(p as int));
            vstd::seq_lib::lemma_multiset_commutative(s.take(p as int), s.skip(p as int));
        }
        out.insert(p, x);
        proof {
            let s = views(out@);
            assert forall|a: int, b: int| 0 <= a < b < s.len() implies !text_lt(
                #[trigger] s[b],
                #[trigger] s[a],
            ) by {
                assert(s[a] == out@[a]@);
                assert(s[b] == out@[b]@);
                lemma_text_order(s[a], s[b], s[a]);
            }
        }
        i = i + 1;
    }
    assert(names@.take(names.len() as int) =~= names@);
    out
}

/// The tab shown first: the first name in order, if there is any tab.
pub fn default_tab(names: &Vec<String>) -> (r: Option<String>)
    ensures
        r is None <==> names@.len() == 0,
        r matches Some(t) ==> views(names@).contains(t@) && forall|j: int|
            0 <= j < names@.len() ==> !text_lt(#[trigger] names@[j]@, t@),
{
    if names.len() == 0 {
        return None;
    }
    let mut best: usize = 0;
    let mut i: usize = 1;
    proof {
        lemma_text_order(names@[0]@, names@[0]@, names@[0]@);
    }
    while i < names.len()
        invariant
            1 <= i <= names.len(),
            best < names.len(),
            forall|j: int| 0 <= j < i ==> !text_lt(#[trigger] names@[j]@, names@[best as int]@),
        decreases names.len() - i,
    {
        if text_less(names[i].as_str(), names[best].as_str()) {
            proof {
                assert forall|j: int| 0 <= j < i + 1 implies !text_lt(
                    #[trigger] names@[j]@,
                    names@[i as int]@,
                ) by {
                    lemma_text_order(names@[j]@, names@[best as int]@, names@[i as int]@);
                    lemma_text_order(names@[i as int]@, names@[best as int]@, names@[j]@);
                    lemma_text_order(names@[j]@, names@[i as int]@, names@[best as int]@);
                }
            }
            best = i;
        } else {
            proof {
                lemma_text_order(names@[i as int]@, names@[i as int]@, names@[i as int]@);
            }
        }
        i = i + 1;
    }
    assert(views(names@)[best as int] == names@[best as int]@);
    Some(names[best].clone())
}


// ---------------------------------------------------------------------------
// Sorting albums by name (stable)
// ---------------------------------------------------------------------------
/// Entries as (key, name) pairs of numbers and texts.
pub open spec fn named(v: Seq<(u64, String)>) -> Seq<(u64, Seq<char>)> {
    v.map_values(|e: (u64, String)| (e.0, e.1@))
}

/// No name comes after the name of a later entry.
pub open spec fn sorted_by_name(s: Seq<(u64, Seq<char>)>) -> bool {
    forall|i: int, j: int| 0 <= i < j < s.len() ==> !text_lt(#[trigger] s[j].1, #[trigger] s[i].1)
}

/// The entries that bear a given name, in their order.
pub open spec fn with_name(s: Seq<(u64, Seq<char>)>, k: Seq<char>) -> Seq<(u64, Seq<char>)> {
    s.filter(has_name(k))
}

/// Whether an entry bears the name `k`.
pub open spec fn has_name(k: Seq<char>) -> spec_fn((u64, Seq<char>)) -> bool {
    |e: (u64, Seq<char>)| e.1 == k
}

proof fn lemma_with_name_split(s: Seq<(u64, Seq<char>)>, p: int, y: (u64, Seq<char>), k: Seq<char>)
    requires
        0 <= p <= s.len(),
        forall|j: int| p <= j < s.len() ==> text_lt(y.1, #[trigger] s[j].1),
    ensures
        with_name(s.insert(p, y), k) == with_name(s, k) + (if y.1 == k {
            seq![y]
        } else {
            seq![]
        }),
{
    let pred = has_name(k);
    let a = s.take(p);
    let b = s.skip(p);
    assert(s =~= a + b);
    assert(s.insert(p, y) =~= a + seq![y] + b);
    Seq::filter_distributes_over_add(a, b, pred);
    Seq::filter_distributes_over_add(a + seq![y], b, pred);
    Seq::filter_distributes_over_add(a, seq![y], pred);
    reveal_with_fuel(Seq::filter, 2);
    assert(seq![y].drop_last() =~= Seq::<(u64, Seq<char>)>::empty());
    if y.1 == k {
        assert forall|j: int| 0 <= j < b.len() implies !pred(#[trigger] b[j]) by {
            assert(b[j] == s[p + j]);
            lemma_text_order(y.1, y.1, y.1);
        }
        assert(b.all(|e: (u64, Seq<char>)| !pred(e)));
        b.lemma_all_neg_filter_empty(pred);
        assert(b.filter(pred) =~= Seq::<(u64, Seq<char>)>::empty());
        assert(Seq::<(u64, Seq<char>)>::empty().filter(pred) =~= Seq::<(u64, Seq<char>)>::empty());
        assert(seq![y].filter(pred) =~= seq![y]);
        assert((a + seq![y] + b).filter(pred) == (a + seq![y]).filter(pred) + b.filter(pred));
        assert((a + seq![y]).filter(pred) == a.filter(pred) + seq![y].filter(pred));
        assert(with_name(s.insert(p, y), k) =~= with_name(s, k) + seq![y]);
    } else {
        assert(with_name(s.insert(p, y), k) =~= with_name(s, k) + seq![]);
    }
}

proof fn lemma_with_name_push(s: Seq<(u64, Seq<char>)>, y: (u64, Seq<char>), k: Seq<char>)
    ensures
        with_name(s.push(y), k) == with_name(s, k) + (if y.1 == k {
            seq![y]
        } else {
            seq![]
        }),
{
    reveal(Seq::filter);
    assert(s.push(y).drop_last() =~= s);
    if y.1 == k {
        assert(with_name(s, k).push(y) =~= with_name(s, k) + seq![y]);
    } else {
        assert(with_name(s, k) =~= with_name(s, k) + seq![]);
    }
}

/// Albums ordered by name, as `sort_by` on the names orders them: names in
/// order, and albums with the same name kept in the order they came in.
/// Each entry is an album's key (what the caller finds the album again by)
/// and its name.
pub fn sort_by_name(albums: &Vec<(u64, String)>) -> (r: Vec<(u64, String)>)
    ensures
        sorted_by_name(named(r@)),
        forall|k: Seq<char>| #[trigger] with_name(named(r@), k) == with_name(named(albums@), k),
{
    let mut out: Vec<(u64, String)> = Vec::new();
    let mut i: usize = 0;
    proof {
        assert forall|k: Seq<char>| #[trigger] with_name(named(out@), k) == with_name(
            named(albums@.take(0)),
            k,
        ) by {
            assert(named(out@) =~= named(albums@.take(0)));
        }
    }
    while i < albums.len()
        invariant
            i <= albums.len(),
            sorted_by_name(named(out@)),
            forall|k: Seq<char>| #[trigger] with_name(named(out@), k) == with_name(
                named(albums@.take(i as int)),
                k,
            ),
        decreases albums.len() - i,
    {
        let key = albums[i].0;
        let name = albums[i].1.clone();
        let mut p: usize = 0;
        while p < out.len() && !text_less(name.as_str(), out[p].1.as_str())
            invariant
                p <= out.len(),
                forall|j: int| 0 <= j < p ==> !text_lt(name@, #[trigger] out@[j].1@),
            decreases out.len() - p,
        {
            p = p + 1;
        }
        let ghost s = named(out@);
        let ghost y = (key, name@);
        proof {
            assert forall|j: int| p <= j < s.len() implies text_lt(y.1, #[trigger] s[j].1) by {
                assert(s[j].1 == out@[j].1@);
                assert(s[p as int].1 == out@[p as int].1@);
                assert(text_lt(name@, out@[p as int].1@));
                if j > p {
                    assert(!text_lt(s[j].1, s[p as int].1));
                    lemma_text_order(name@, out@[p as int].1@, out@[j].1@);
                    lemma_text_order(out@[p as int].1@, out@[j].1@, name@);
                }
            }
        }
        out.insert(p, (key, name));
        proof {
            assert(named(out@) =~= s.insert(p as int, y));
            assert(named(albums@.take(i + 1)) =~= named(albums@.take(i as int)).push(y));
            assert forall|k: Seq<char>| #[trigger] with_name(named(out@), k) == with_name(
                named(albums@.take(i + 1)),
                k,
            ) by {
                lemma_with_name_split(s, p as int, y, k);
                lemma_with_name_push(named(albums@.take(i as int)), y, k);
            }
            let t = named(out@);
            assert forall|a: int, b: int| 0 <= a < b < t.len() implies !text_lt(
                #[trigger] t[b].1,
                #[trigger] t[a].1,
            ) by {
                if a < p && b > p {
                    assert(t[a] == s[a]);
                    assert(t[b] == s[b - 1]);
                    assert(!text_lt(y.1, s[a].1));
                    assert(text_lt(y.1, s[b - 1].1));
                    lemma_text_order(s[b - 1].1, s[a].1, y.1);
                    lemma_text_order(s[a].1, y.1, s[b - 1].1);
                    lemma_text_order(y.1, s[a].1, y.1);
                } else if a == p {
                    assert(t[b] == s[b - 1]);
                    assert(text_lt(y.1, s[b - 1].1));
                    lemma_text_order(y.1, s[b - 1].1, y.1);
                } else if b == p {
                    assert(t[a] == s[a]);
                    assert(!text_lt(y.1, s[a].1));
                } else if b < p {
                    assert(t[a] == s[a] && t[b] == s[b]);
                } else {
                    assert(t[a] == s[a - 1] && t[b] == s[b - 1]);
                }
            }
        }
        i = i + 1;
    }
    assert(albums@.take(albums.len() as int) =~= albums@);
    out
}

} // verus!
