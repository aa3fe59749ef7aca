use vstd::prelude::*;

use crate::text::views;

verus! {

/// What a bulk tag edit does to each medium's tags.
#[derive(Clone, Copy, Debug, PartialEq, Eq, Structural)]
pub enum TagEditMode {
    /// Add the tags that are not present yet.
    Add,
    /// Remove the tags that are present.
    Remove,
}

/// The tags of a list, as a set of texts.
pub open spec fn tag_set(v: Seq<String>) -> Set<Seq<char>> {
    views(v).to_set()
}

/// Whether a medium with `current` tags needs an update: adding is needed
/// when some tag to add is missing, removing when some tag to remove is
/// present.
pub open spec fn edit_needed(mode: TagEditMode, current: Set<Seq<char>>, edit: Set<Seq<char>>) -> bool {
    match mode {
        TagEditMode::Add => !edit.subset_of(current),
        TagEditMode::Remove => !edit.disjoint(current),
    }
}

/// The tags of a medium after the edit.
pub open spec fn edited(mode: TagEditMode, current: Set<Seq<char>>, edit: Set<Seq<char>>) -> Set<
    Seq<char>,
> {
    match mode {
        TagEditMode::Add => current.union(edit),
        TagEditMode::Remove => current.difference(edit),
    }
}

/// Whether a list of tags holds the given tag.
pub fn has_tag(v: &Vec<String>, t: &String) -> (r: bool)
    ensures
        r == views(v@).contains(t@),
{
    let mut i: usize = 0;
    while i < v.len()
        invariant
            i <= v.len(),
            forall|j: int| 0 <= j < i ==> v@[j]@ != t@,
        decreases v.len() - i,
    {
        if v[i] == *t {
            assert(views(v@)[i as int] == t@);
            return true;
        }
        i = i + 1;
    }
    assert forall|j: int| 0 <= j < views(v@).len() implies views(v@)[j] != t@ by {
        assert(views(v@)[j] == v@[j]@);
    }
    false
}

proof fn lemma_views_push(v: Seq<String>, t: String)
    ensures
        views(v.push(t)) == views(v).push(t@),
{
    assert(views(v.push(t)) =~= views(v).push(t@));
}

proof fn lemma_views_take(v: Seq<String>, i: int)
    requires
        0 <= i < v.len(),
    ensures
        views(v.take(i + 1)) == views(v.take(i)).push(v[i]@),
{
    assert(views(v.take(i + 1)) =~= views(v.take(i)).push(v[i]@));
}

/// Appends to `out` each tag of `src` that `out` does not hold yet and that
/// `skip` does not hold.
fn add_missing(out: &mut Vec<String>, src: &Vec<String>, skip: &Vec<String>)
    requires
        views(old(out)@).no_duplicates(),
    ensures
        views(final(out)@).no_duplicates(),
        tag_set(final(out)@) == tag_set(old(out)@).union(tag_set(src@).difference(tag_set(skip@))),
{
    let ghost start = tag_set(out@);
    let mut i: usize = 0;
    while i < src.len()
        invariant
            i <= src.len(),
            views(out@).no_duplicates(),
            tag_set(out@) == start.union(tag_set(src@.take(i as int)).difference(tag_set(skip@))),
        decreases src.len() - i,
    {
        let t = &src[i];
        proof {
            lemma_views_take(src@, i as int);
            views(src@.take(i as int)).lemma_push_to_set_commute(t@);
        }
        if !has_tag(skip, t) && !has_tag(out, t) {
            let c = t.clone();
            proof {
                lemma_views_push(out@, c);
                views(out@).lemma_push_to_set_commute(c@);
            }
            out.push(c);
        }
        i = i + 1;
        assert(tag_set(out@) =~= start.union(tag_set(src@.take(i as int)).difference(tag_set(skip@))));
    }
    assert(src@.take(src.len() as int) =~= src@);
}

/// The update that a bulk tag edit makes to one medium: `None` when the
/// medium's tags need no change (it counts as done without an update),
/// otherwise the new tags, each once.
pub fn plan_tag_edit(mode: TagEditMode, current: &Vec<String>, edit: &Vec<String>) -> (r: Option<
    Vec<String>,
>)
    ensures
        r is None <==> !edit_needed(mode, tag_set(current@), tag_set(edit@)),
        r matches Some(v) ==> tag_set(v@) == edited(mode, tag_set(current@), tag_set(edit@))
            && views(v@).no_duplicates(),
{
    let ghost cur = tag_set(current@);
    let ghost ed = tag_set(edit@);
    let none: Vec<String> = Vec::new();
    match mode {
        TagEditMode::Add => {
            // Is every tag to add already there?
            let mut i: usize = 0;
            let mut missing = false;
            while i < edit.len()
                invariant
                    i <= edit.len(),
                    cur == tag_set(current@),
                    ed == tag_set(edit@),
                    !missing ==> forall|j: int| 0 <= j < i ==> cur.contains(#[trigger] edit@[j]@),
                    missing ==> !ed.subset_of(cur),
                decreases edit.len() - i,
            {
                if !missing && !has_tag(current, &edit[i]) {
                    assert(views(edit@)[i as int] == edit@[i as int]@);
                    assert(views(edit@).contains(edit@[i as int]@));
                    assert(ed.contains(edit@[i as int]@));
                    assert(!cur.contains(edit@[i as int]@));
                    missing = true;
                }
                i = i + 1;
            }
            if !missing {
                assert forall|x: Seq<char>| ed.contains(x) implies cur.contains(x) by {
                    let j = choose|j: int| 0 <= j < views(edit@).len() && views(edit@)[j] == x;
                    assert(views(edit@)[j] == edit@[j]@);
                }
                return None;
            }
            let mut out: Vec<String> = Vec::new();
            assert(views(out@) =~= Seq::<Seq<char>>::empty());
            add_missing(&mut out, current, &none);
            add_missing(&mut out, edit, &none);
            assert(tag_set(none@) =~= Set::<Seq<char>>::empty());
            assert(tag_set(out@) =~= cur.union(ed));
            Some(out)
        },
        TagEditMode::Remove => {
            // Is any tag to remove there?
            let mut i: usize = 0;
            let mut present = false;
            while i < edit.len()
                invariant
                    i <= edit.len(),
                    cur == tag_set(current@),
                    ed == tag_set(edit@),
                    !present ==> forall|j: int| 0 <= j < i ==> !cur.contains(#[trigger] edit@[j]@),
                    present ==> !ed.disjoint(cur),
                decreases edit.len() - i,
            {
                if !present && has_tag(current, &edit[i]) {
                    assert(views(edit@)[i as int] == edit@[i as int]@);
                    assert(views(edit@).contains(edit@[i as int]@));
                    assert(ed.contains(edit@[i as int]@));
                    assert(cur.contains(edit@[i as int]@));
                    present = true;
                }
                i = i + 1;
            }
            if !present {
                assert forall|x: Seq<char>| ed.contains(x) implies !cur.contains(x) by {
                    let j = choose|j: int| 0 <= j < views(edit@).len() && views(edit@)[j] == x;
                    assert(views(edit@)[j] == edit@[j]@);
                }
                return None;
            }
            let mut out: Vec<String> = Vec::new();
            assert(views(out@) =~= Seq::<Seq<char>>::empty());
            add_missing(&mut out, current, edit);
            assert(tag_set(out@) =~= cur.difference(ed));
            Some(out)
        },
    }
}

/// Adding tags and then removing the same tags leaves a medium without any
/// of them; adding is idempotent; removing twice is the same as once.
pub proof fn lemma_tag_edit_laws(current: Set<Seq<char>>, edit: Set<Seq<char>>)
    ensures
        edited(TagEditMode::Remove, edited(TagEditMode::Add, current, edit), edit)
            == current.difference(edit),
        !edit_needed(TagEditMode::Add, edited(TagEditMode::Add, current, edit), edit),
        !edit_needed(TagEditMode::Remove, edited(TagEditMode::Remove, current, edit), edit),
        !edit_needed(TagEditMode::Add, current, edit) ==> edited(TagEditMode::Add, current, edit)
            == current,
        !edit_needed(TagEditMode::Remove, current, edit) ==> edited(
            TagEditMode::Remove,
            current,
            edit,
        ) == current,
{
    assert(current.union(edit).difference(edit) =~= current.difference(edit));
    if edit.subset_of(current) {
        assert(current.union(edit) =~= current);
    }
    if edit.disjoint(current) {
        assert(current.difference(edit) =~= current);
    }
}

} // verus!
