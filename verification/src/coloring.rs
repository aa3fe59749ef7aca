use std::collections::HashMap;

use vstd::prelude::*;

use crate::colors::{color_order, name_of, CollectionColor};
use crate::text::same_text;

verus! {

broadcast use vstd::std_specs::hash::group_hash_axioms;

/// The colors that the user gave to collections, by collection id.
pub struct CollectionColors {
    map: HashMap<u64, CollectionColor>,
}

impl View for CollectionColors {
    type V = Map<u64, CollectionColor>;

    closed spec fn view(&self) -> Map<u64, CollectionColor> {
        self.map@
    }
}

/// The colored collections of a medium, in the order of the medium's
/// collection list, each once, with their colors.
pub open spec fn indicator_of(colors: Map<u64, CollectionColor>, collections: Seq<u64>) -> Seq<
    (u64, CollectionColor),
>
    decreases collections.len(),
{
    if collections.len() == 0 {
        seq![]
    } else {
        let prev = indicator_of(colors, collections.drop_last());
        let c = collections.last();
        if colors.contains_key(c) && !collections.drop_last().contains(c) {
            prev.push((c, colors[c]))
        } else {
            prev
        }
    }
}

impl CollectionColors {
    /// No collection colored.
    pub fn new() -> (r: Self)
        ensures
            r@ == Map::<u64, CollectionColor>::empty(),
    {
        CollectionColors { map: HashMap::new() }
    }

    /// Gives a collection a color (replacing the color it had).
    pub fn set_color(&mut self, collection: u64, color: CollectionColor)
        ensures
            final(self)@ == old(self)@.insert(collection, color),
    {
        self.map.insert(collection, color);
    }

    /// Takes the color off a collection.
    pub fn remove(&mut self, collection: u64)
        ensures
            final(self)@ == old(self)@.remove(collection),
    {
        self.map.remove(&collection);
    }

    /// The color of a collection, if it has one.
    pub fn color_of(&self, collection: u64) -> (r: Option<CollectionColor>)
        ensures
            self@.contains_key(collection) ==> r == Some(self@[collection]),
            !self@.contains_key(collection) ==> r is None,
    {
        match self.map.get(&collection) {
            Some(c) => Some(*c),
            None => None,
        }
    }

    /// Whether no collection has a color.
    pub fn is_empty(&self) -> (r: bool)
        ensures
            r == (self@.len() == 0),
    {
        self.map.len() == 0
    }

    /// The search results that can still be given a color: those that have
    /// none, in the order of the results.
    pub fn uncolored(&self, results: &Vec<u64>) -> (r: Vec<u64>)
        ensures
            r@ == results@.filter(|c: u64| !self@.contains_key(c)),
    {
        let ghost keep = |c: u64| !self@.contains_key(c);
        let mut r: Vec<u64> = Vec::new();
        let mut i: usize = 0;
        while i < results.len()
            invariant
                i <= results.len(),
                keep == (|c: u64| !self@.contains_key(c)),
                r@ == results@.take(i as int).filter(keep),
            decreases results.len() - i,
        {
            proof {
                reveal(Seq::filter);
                assert(results@.take(i + 1).drop_last() =~= results@.take(i as int));
            }
            let c = results[i];
            if !self.map.contains_key(&c) {
                r.push(c);
            }
            i = i + 1;
        }
        assert(results@.take(results.len() as int) =~= results@);
        r
    }

    /// The color dots of a medium's card: its colored collections, in the
    /// order of its collection list, each once.
    pub fn indicators(&self, collections: &Vec<u64>) -> (r: Vec<(u64, CollectionColor)>)
        ensures
            r@ == indicator_of(self@, collections@),
    {
        let mut r: Vec<(u64, CollectionColor)> = Vec::new();
        let mut i: usize = 0;
        while i < collections.len()
            invariant
                i <= collections.len(),
                r@ == indicator_of(self@, collections@.take(i as int)),
            decreases collections.len() - i,
        {
            let c = collections[i];
            let mut seen = false;
            let mut k: usize = 0;
            while k < i
                invariant
                    k <= i < collections.len(),
                    seen ==> collections@.take(i as int).contains(c),
                    !seen ==> forall|j: int| 0 <= j < k ==> collections@[j] != c,
                decreases i - k,
            {
                if collections[k] == c {
                    assert(collections@.take(i as int)[k as int] == c);
                    seen = true;
                }
                k = k + 1;
            }
            proof {
                if !seen {
                    assert forall|j: int| 0 <= j < i implies collections@.take(i as int)[j] != c by {}
                }
            }
            proof {
                assert(collections@.take(i + 1).drop_last() =~= collections@.take(i as int));
                assert(collections@.take(i + 1).last() == c);
            }
            if !seen {
                match self.map.get(&c) {
                    Some(color) => {
                        r.push((c, *color));
                    },
                    None => {},
                }
            }
            i = i + 1;
        }
        assert(collections@.take(collections.len() as int) =~= collections@);
        r
    }
}

/// The color whose name is exactly the picked value, if one is; used when a
/// color is added from the picker.
pub fn color_by_exact_name(value: &str) -> (r: Option<CollectionColor>)
    ensures
        r matches Some(c) ==> name_of(c) == value@,
        r is None ==> forall|c: CollectionColor| name_of(c) != value@,
{
    let all = CollectionColor::all();
    let mut i: usize = 0;
    while i < all.len()
        invariant
            i <= all.len(),
            all@ == color_order(),
            forall|j: int| 0 <= j < i ==> name_of(#[trigger] all@[j]) != value@,
        decreases all.len() - i,
    {
        let c = all[i];
        if same_text(c.name(), value) {
            return Some(c);
        }
        i = i + 1;
    }
    proof {
        assert forall|c: CollectionColor| name_of(c) != value@ by {
            crate::colors::lemma_all_colors_once(c);
            let j = choose|j: int| 0 <= j < color_order().len() && color_order()[j] == c;
            assert(name_of(all@[j]) != value@);
        }
    }
    None
}

/// The colored collections shown on a card are exactly the medium's
/// collections that have a color, each once, with its color.
pub proof fn lemma_indicators_are_the_colored_collections(
    colors: Map<u64, CollectionColor>,
    collections: Seq<u64>,
)
    ensures
        forall|c: u64|
            #![trigger colors.contains_key(c), collections.contains(c)]
            (colors.contains_key(c) && collections.contains(c)) <==> exists|i: int|
                0 <= i < indicator_of(colors, collections).len() && indicator_of(
                    colors,
                    collections,
                )[i].0 == c,
        forall|i: int|
            0 <= i < indicator_of(colors, collections).len() ==> #[trigger] colors.contains_key(
                indicator_of(colors, collections)[i].0,
            ) && colors[indicator_of(colors, collections)[i].0] == indicator_of(
                colors,
                collections,
            )[i].1,
        forall|i: int, j: int|
            0 <= i < j < indicator_of(colors, collections).len() ==> indicator_of(
                colors,
                collections,
            )[i].0 != indicator_of(colors, collections)[j].0,
    decreases collections.len(),
{
    if collections.len() > 0 {
        let prev = collections.drop_last();
        lemma_indicators_are_the_colored_collections(colors, prev);
        let p = indicator_of(colors, prev);
        let r = indicator_of(colors, collections);
        let last = collections.last();
        assert(collections =~= prev.push(last));
        assert forall|c: u64|
            #![trigger colors.contains_key(c), collections.contains(c)]
            (colors.contains_key(c) && collections.contains(c)) <==> exists|i: int|
                0 <= i < r.len() && r[i].0 == c by {
            if colors.contains_key(c) && collections.contains(c) {
                let k = choose|k: int| 0 <= k < collections.len() && collections[k] == c;
                if k < prev.len() {
                    assert(prev[k] == c);
                    assert(prev.contains(c));
                    let i = choose|i: int| 0 <= i < p.len() && p[i].0 == c;
                    assert(r[i] == p[i]);
                } else if prev.contains(c) {
                    let i = choose|i: int| 0 <= i < p.len() && p[i].0 == c;
                    assert(r[i] == p[i]);
                } else {
                    assert(r[r.len() - 1].0 == c);
                }
            }
            if exists|i: int| 0 <= i < r.len() && r[i].0 == c {
                let i = choose|i: int| 0 <= i < r.len() && r[i].0 == c;
                if i < p.len() {
                    assert(r[i] == p[i]);
                    assert(p[i].0 == c);
                    assert(colors.contains_key(c));
                    assert(prev.contains(c));
                    let k = choose|k: int| 0 <= k < prev.len() && prev[k] == c;
                    assert(collections[k] == c);
                } else {
                    assert(collections[collections.len() - 1] == c);
                }
            }
        }
        assert forall|i: int, j: int| 0 <= i < j < r.len() implies r[i].0 != r[j].0 by {
            if j >= p.len() {
                assert(r[i] == p[i]);
                if r[i].0 == last {
                    assert(colors.contains_key(last) && prev.contains(last));
                }
            } else {
                assert(r[i] == p[i] && r[j] == p[j]);
            }
        }
        assert forall|i: int| 0 <= i < r.len() implies #[trigger] colors.contains_key(r[i].0)
            && colors[r[i].0] == r[i].1 by {
            if i < p.len() {
                assert(r[i] == p[i]);
            }
        }
    }
}

} // verus!
