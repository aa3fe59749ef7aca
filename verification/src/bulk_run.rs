use std::collections::HashSet;

use vstd::prelude::*;

use crate::progress::{BulkProgress, ItemOutcome, ProgressCounts, succeeded};
use crate::selection::ids_of;
use crate::tags::{TagEditMode, edit_needed, edited, plan_tag_edit, tag_set};
use crate::text::views;

verus! {

/// A bulk tag edit over the picked media, one medium after the other.  The
/// caller asks for the next medium, fetches it, hands its tags back, sends
/// the update this hands out (if any) and reports whether it went through;
/// the run decides what to send and keeps the counts.
pub struct BulkTagRun {
    mode: TagEditMode,
    edit: Vec<String>,
    media: Vec<u64>,
    next: usize,
    awaiting_update: bool,
    progress: BulkProgress,
}

impl BulkTagRun {
    /// The media the edit is over.
    pub closed spec fn picked(&self) -> Set<u64> {
        self.media@.to_set()
    }

    /// The media handed out so far, in the order they were handed out.
    pub closed spec fn handed(&self) -> Seq<u64> {
        self.media@.take(self.next as int)
    }

    pub closed spec fn edit_mode(&self) -> TagEditMode {
        self.mode
    }

    /// The tags being added or removed.
    pub closed spec fn edit_tags(&self) -> Set<Seq<char>> {
        tag_set(self.edit@)
    }

    /// Whether an update handed out is waiting for its answer.
    pub closed spec fn awaiting(&self) -> bool {
        self.awaiting_update
    }

    pub closed spec fn counts(&self) -> ProgressCounts {
        self.progress.counts()
    }

    /// Whether the medium handed out last is still being worked on.
    pub closed spec fn item_open(&self) -> bool {
        self.progress.item_open()
    }

    pub closed spec fn wf(&self) -> bool {
        &&& self.media@.no_duplicates()
        &&& self.next <= self.media.len()
        &&& self.progress.wf()
        &&& self.progress.counts().total == self.media.len()
        &&& self.progress.counts().processing == self.next
        &&& self.awaiting_update ==> self.progress.item_open()
    }

    /// A run over the picked media; nothing handed out yet.
    pub fn start(mode: TagEditMode, edit: Vec<String>, picked: &HashSet<u64>) -> (r: Self)
        requires
            picked@.len() <= i64::MAX,
        ensures
            r.wf(),
            r.picked() == picked@,
            r.handed() == Seq::<u64>::empty(),
            r.edit_mode() == mode,
            r.edit_tags() == tag_set(edit@),
            !r.item_open(),
            !r.awaiting(),
            r.counts() == (ProgressCounts { processing: 0, success: 0, error: 0, total: picked@.len() as int }),
    {
        let media = ids_of(picked);
        proof {
            media@.unique_seq_to_set();
        }
        let progress = BulkProgress::start(media.len());
        let r = BulkTagRun { mode, edit, media, next: 0, awaiting_update: false, progress };
        assert(r.handed() =~= Seq::<u64>::empty());
        r
    }

    /// The next medium to edit, each picked medium once; `None` once every
    /// one has been handed out.
    pub fn next_medium(&mut self) -> (r: Option<u64>)
        requires
            old(self).wf(),
            !old(self).item_open(),
        ensures
            final(self).wf(),
            final(self).picked() == old(self).picked(),
            final(self).edit_mode() == old(self).edit_mode(),
            final(self).edit_tags() == old(self).edit_tags(),
            !final(self).awaiting(),
            r is None <==> old(self).handed().to_set() == old(self).picked(),
            r is None ==> final(self).handed() == old(self).handed() && !final(self).item_open()
                && final(self).counts() == old(self).counts(),
            r matches Some(id) ==> old(self).picked().contains(id),
            r matches Some(id) ==> !old(self).handed().contains(id),
            r matches Some(id) ==> final(self).handed() == old(self).handed().push(id),
            r is Some ==> final(self).item_open(),
            r is Some ==> final(self).counts() == (ProgressCounts {
                processing: old(self).counts().processing + 1,
                ..old(self).counts()
            }),
    {
        proof {
            self.media@.unique_seq_to_set();
            if self.next < self.media.len() {
                let h = self.media@.take(self.next as int);
                assert(!h.contains(self.media@[self.next as int]));
                assert(h.to_set() != self.media@.to_set()) by {
                    assert(self.media@.to_set().contains(self.media@[self.next as int]));
                }
            } else {
                assert(self.media@.take(self.next as int) =~= self.media@);
            }
        }
        if self.next < self.media.len() {
            let id = self.media[self.next];
            proof {
                let h = self.media@.take(self.next as int);
                assert(self.media@.to_set().contains(id));
                assert forall|k: int| 0 <= k < h.len() implies h[k] != id by {
                    assert(h[k] == self.media@[k]);
                }
                assert(!h.contains(id));
            }
            self.progress.begin_item();
            self.next = self.next + 1;
            assert(self.media@.take(self.next as int) =~= old(self).media@.take(
                old(self).next as int,
            ).push(id));
            Some(id)
        } else {
            None
        }
    }

    /// The medium handed out last was fetched with these tags (`None`: it
    /// could not be fetched).  Hands out the new tags to send, or `None`
    /// when nothing is to be sent: the medium then counts as failed (not
    /// fetched) or as done (its tags need no change).
    pub fn fetched(&mut self, tags: Option<&Vec<String>>) -> (r: Option<Vec<String>>)
        requires
            old(self).wf(),
            old(self).item_open(),
            !old(self).awaiting(),
        ensures
            final(self).wf(),
            final(self).picked() == old(self).picked(),
            final(self).handed() == old(self).handed(),
            final(self).edit_mode() == old(self).edit_mode(),
            final(self).edit_tags() == old(self).edit_tags(),
            tags is None ==> r is None && !final(self).item_open() && final(self).counts() == (
            ProgressCounts { error: old(self).counts().error + 1, ..old(self).counts() }),
            tags matches Some(t) ==> (r is None <==> !edit_needed(
                old(self).edit_mode(),
                tag_set(t@),
                old(self).edit_tags(),
            )),
            tags is Some && r is None ==> !final(self).item_open() && final(self).counts() == (
            ProgressCounts { success: old(self).counts().success + 1, ..old(self).counts() }),
            tags matches Some(t) ==> (r matches Some(v) ==> {
                &&& tag_set(v@) == edited(old(self).edit_mode(), tag_set(t@), old(self).edit_tags())
                &&& views(v@).no_duplicates()
                &&& final(self).awaiting()
                &&& final(self).item_open()
                &&& final(self).counts() == old(self).counts()
            }),
            r is None ==> !final(self).awaiting(),
    {
        match tags {
            None => {
                self.progress.finish_item(ItemOutcome::FetchFailed);
                None
            },
            Some(t) => {
                let plan = plan_tag_edit(self.mode, t, &self.edit);
                match plan {
                    None => {
                        self.progress.finish_item(ItemOutcome::Unchanged);
                        None
                    },
                    Some(v) => {
                        self.awaiting_update = true;
                        Some(v)
                    },
                }
            },
        }
    }

    /// The update handed out last went through (`ok`) or was refused.
    pub fn updated(&mut self, ok: bool)
        requires
            old(self).wf(),
            old(self).awaiting(),
        ensures
            final(self).wf(),
            final(self).picked() == old(self).picked(),
            final(self).handed() == old(self).handed(),
            final(self).edit_mode() == old(self).edit_mode(),
            final(self).edit_tags() == old(self).edit_tags(),
            !final(self).awaiting(),
            !final(self).item_open(),
            final(self).counts() == (ProgressCounts {
                success: if ok { old(self).counts().success + 1 } else { old(self).counts().success },
                error: if ok { old(self).counts().error } else { old(self).counts().error + 1 },
                ..old(self).counts()
            }),
    {
        self.awaiting_update = false;
        if ok {
            self.progress.finish_item(ItemOutcome::Updated);
        } else {
            self.progress.finish_item(ItemOutcome::UpdateFailed);
        }
    }

    /// The counters, for the status line and the summary.
    pub fn progress(&self) -> (p: &BulkProgress)
        ensures
            p.counts() == self.counts(),
            self.wf() ==> p.wf(),
    {
        &self.progress
    }
}

/// A run hands each picked medium out at most once: what it has handed out
/// has no repeats and only picked media, and as many as it started.
pub proof fn lemma_each_medium_once(run: BulkTagRun)
    requires
        run.wf(),
    ensures
        run.handed().no_duplicates(),
        forall|id: u64| run.handed().contains(id) ==> run.picked().contains(id),
        run.handed().len() == run.counts().processing,
{
    assert forall|id: u64| run.handed().contains(id) implies run.picked().contains(id) by {
        let k = choose|k: int| 0 <= k < run.handed().len() && run.handed()[k] == id;
        assert(run.media@[k] == id);
    }
}

} // verus!
