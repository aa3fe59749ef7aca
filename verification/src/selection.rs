use std::collections::HashSet;

use vstd::prelude::*;
use vstd::std_specs::iter::IteratorSpec;

verus! {

broadcast use vstd::std_specs::hash::group_hash_axioms;

/// The media picked for a bulk edit.  `None` while bulk edit mode is off;
/// otherwise the identifiers of the media that are picked.
pub struct BulkSelection {
    selected: Option<HashSet<u64>>,
}

impl View for BulkSelection {
    type V = Option<Set<u64>>;

    closed spec fn view(&self) -> Option<Set<u64>> {
        match self.selected {
            Some(s) => Some(s@),
            None => None,
        }
    }
}

/// The selection after clicking on a medium: in bulk edit mode the medium
/// changes between picked and not picked; otherwise nothing changes.
pub open spec fn toggled(sel: Option<Set<u64>>, media: u64) -> Option<Set<u64>> {
    match sel {
        Some(s) => if s.contains(media) {
            Some(s.remove(media))
        } else {
            Some(s.insert(media))
        },
        None => None,
    }
}

/// The selection after "Invert Selection": every shown medium that was not
/// picked is picked, and nothing else.
pub open spec fn inverted(sel: Option<Set<u64>>, shown: Set<u64>) -> Option<Set<u64>> {
    match sel {
        Some(s) => Some(shown.difference(s)),
        None => None,
    }
}

/// Whether a medium shows as picked.
pub open spec fn picked(sel: Option<Set<u64>>, media: u64) -> bool {
    match sel {
        Some(s) => s.contains(media),
        None => false,
    }
}

impl BulkSelection {
    /// Bulk edit mode off.
    pub fn new() -> (r: Self)
        ensures
            r@ is None,
    {
        BulkSelection { selected: None }
    }

    /// "Enable Bulk Edit Mode": on, with nothing picked.
    pub fn enable(&mut self)
        ensures
            final(self)@ == Some(Set::<u64>::empty()),
    {
        self.selected = Some(HashSet::new());
    }

    /// "Clear Selection": on, with nothing picked.
    pub fn clear(&mut self)
        ensures
            final(self)@ == Some(Set::<u64>::empty()),
    {
        self.selected = Some(HashSet::new());
    }

    /// "Disable Bulk Edit Mode".
    pub fn disable(&mut self)
        ensures
            final(self)@ is None,
    {
        self.selected = None;
    }

    /// Whether bulk edit mode is on.
    pub fn is_enabled(&self) -> (r: bool)
        ensures
            r == (self@ is Some),
    {
        self.selected.is_some()
    }

    /// Whether a medium is picked.
    pub fn is_selected(&self, media: u64) -> (r: bool)
        ensures
            r == picked(self@, media),
    {
        match &self.selected {
            Some(s) => s.contains(&media),
            None => false,
        }
    }

    /// How many media are picked, while bulk edit mode is on.
    pub fn count(&self) -> (r: Option<usize>)
        ensures
            match self@ {
                Some(s) => r == Some(s.len() as usize),
                None => r is None,
            },
    {
        match &self.selected {
            Some(s) => Some(s.len()),
            None => None,
        }
    }

    /// The picked media, each once, while bulk edit mode is on (what a bulk
    /// action is handed).
    pub fn picked_ids(&self) -> (r: Option<Vec<u64>>)
        ensures
            match self@ {
                Some(s) => r matches Some(v) && v@.to_set() == s && v@.no_duplicates(),
                None => r is None,
            },
    {
        match &self.selected {
            Some(s) => Some(ids_of(s)),
            None => None,
        }
    }

    /// The picked media as a set of their own, while bulk edit mode is on
    /// (what the bulk dialogs are opened with).
    pub fn picked_set(&self) -> (r: Option<HashSet<u64>>)
        ensures
            match self@ {
                Some(s) => r matches Some(c) && c@ == s,
                None => r is None,
            },
    {
        match &self.selected {
            Some(s) => Some(copy_of(s)),
            None => None,
        }
    }

    /// Clicking on a medium in bulk edit mode picks it or unpicks it.
    pub fn toggle(&mut self, media: u64)
        ensures
            final(self)@ == toggled(old(self)@, media),
    {
        match &mut self.selected {
            Some(s) => {
                if s.contains(&media) {
                    s.remove(&media);
                } else {
                    s.insert(media);
                }
            },
            None => {},
        }
    }

    /// "Invert Selection" over the media that are shown.
    pub fn invert(&mut self, shown: &HashSet<u64>)
        ensures
            final(self)@ == inverted(old(self)@, shown@),
    {
        let sel = self.selected.take();
        match sel {
            Some(s) => {
                let mut out: HashSet<u64> = HashSet::new();
                for x in it: shown.iter()
                    invariant
                        out@ == it.seq().take(it.index()).unref().to_set().difference(s@),
                        it.seq().unref().to_set() == shown@,
                        it.index() == it.seq().len() ==> it.seq().take(it.index()) == it.seq(),
                    ensures
                        out@ == shown@.difference(s@),
                {
                    proof {
                        let pre = it.seq().take(it.index()).unref();
                        assert(it.seq().take(it.index() + 1).unref() =~= pre.push(*x));
                        pre.lemma_push_to_set_commute(*x);
                    }
                    if !s.contains(x) {
                        out.insert(*x);
                    }
                    assert(out@ =~= it.seq().take(it.index() + 1).unref().to_set().difference(s@));
                    assert(it.index() + 1 == it.seq().len() ==> it.seq().take(it.index() + 1) =~= it.seq());
                }
                self.selected = Some(out);
            },
            None => {},
        }
    }
}

/// The members of a set of media, each once.
pub fn ids_of(s: &HashSet<u64>) -> (v: Vec<u64>)
    ensures
        v@.to_set() == s@,
        v@.no_duplicates(),
{
    let mut out: Vec<u64> = Vec::new();
    for x in it: s.iter()
        invariant
            out@ == it.seq().take(it.index()).unref(),
            it.seq().unref().to_set() == s@,
            it.seq().no_duplicates(),
            it.index() == it.seq().len() ==> it.seq().take(it.index()) == it.seq(),
        ensures
            out@.to_set() == s@ && out@.no_duplicates(),
    {
        out.push(*x);
        assert(out@ =~= it.seq().take(it.index() + 1).unref());
        assert(it.index() + 1 == it.seq().len() ==> it.seq().take(it.index() + 1) =~= it.seq());
        proof {
            assert forall|a: int, b: int| 0 <= a < b < out@.len() implies out@[a] != out@[b] by {
                assert(out@[a] == *it.seq()[a]);
                assert(out@[b] == *it.seq()[b]);
            }
        }
    }
    out
}

/// A set of media of its own with the same members.
pub fn copy_of(s: &HashSet<u64>) -> (c: HashSet<u64>)
    ensures
        c@ == s@,
{
    let mut out: HashSet<u64> = HashSet::new();
    for x in it: s.iter()
        invariant
            out@ == it.seq().take(it.index()).unref().to_set(),
            it.seq().unref().to_set() == s@,
            it.index() == it.seq().len() ==> it.seq().take(it.index()) == it.seq(),
        ensures
            out@ == s@,
    {
        proof {
            let pre = it.seq().take(it.index()).unref();
            assert(it.seq().take(it.index() + 1).unref() =~= pre.push(*x));
            pre.lemma_push_to_set_commute(*x);
        }
        out.insert(*x);
        assert(it.index() + 1 == it.seq().len() ==> it.seq().take(it.index() + 1) =~= it.seq());
    }
    out
}

/// Clicking a medium twice in bulk edit mode leaves the selection as it was.
pub proof fn lemma_toggle_twice(sel: Option<Set<u64>>, media: u64)
    ensures
        toggled(toggled(sel, media), media) == sel,
{
    match sel {
        Some(s) => {
            if s.contains(media) {
                assert(s.remove(media).insert(media) =~= s);
            } else {
                assert(s.insert(media).remove(media) =~= s);
            }
        },
        None => {},
    }
}

/// In bulk edit mode a click flips whether the clicked medium is picked and
/// leaves every other medium as it was; outside bulk edit mode nothing is
/// picked and a click changes nothing.
pub proof fn lemma_toggle_flips_one(sel: Option<Set<u64>>, media: u64, other: u64)
    requires
        other != media,
    ensures
        sel is Some ==> picked(toggled(sel, media), media) == !picked(sel, media),
        picked(toggled(sel, media), other) == picked(sel, other),
        sel is None ==> toggled(sel, media) is None && !picked(sel, media),
{
}

/// Inverting twice over the same shown media gives back a selection made of
/// shown media.
pub proof fn lemma_invert_twice(sel: Option<Set<u64>>, shown: Set<u64>)
    requires
        sel matches Some(s) ==> s.subset_of(shown),
    ensures
        inverted(inverted(sel, shown), shown) == sel,
{
    match sel {
        Some(s) => {
            assert(shown.difference(shown.difference(s)) =~= s);
        },
        None => {},
    }
}

/// "Invert Selection" picks exactly the shown media that were not picked:
/// an empty selection becomes every shown medium, a full one becomes empty;
/// outside bulk edit mode nothing is picked before or after.
pub proof fn lemma_invert_picks_the_unpicked(sel: Option<Set<u64>>, shown: Set<u64>, media: u64)
    ensures
        sel is Some ==> inverted(sel, shown) is Some,
        sel is Some ==> (picked(inverted(sel, shown), media) <==> (shown.contains(media) && !picked(
            sel,
            media,
        ))),
        sel is None ==> inverted(sel, shown) is None,
{
}

} // verus!
