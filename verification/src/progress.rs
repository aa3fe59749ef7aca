use vstd::prelude::*;

use crate::text::{concat, concat3, signed_decimal, signed_decimal_text};

verus! {

// ---------------------------------------------------------------------------
// The run of a bulk tag edit, one medium after the other
// ---------------------------------------------------------------------------
/// How the edit of one medium ended.
#[derive(Clone, Copy, Debug, PartialEq, Eq, Structural)]
pub enum ItemOutcome {
    /// The medium could not be fetched.
    FetchFailed,
    /// The medium's tags needed no change.
    Unchanged,
    /// The medium's tags were updated.
    Updated,
    /// The update was refused.
    UpdateFailed,
}

/// Whether an outcome counts as a success.
pub open spec fn succeeded(o: ItemOutcome) -> bool {
    o == ItemOutcome::Unchanged || o == ItemOutcome::Updated
}

/// The counters of a bulk edit: media started, media done well, media that
/// failed, and media in the edit.
pub struct BulkProgress {
    processing: i64,
    success: i64,
    error: i64,
    total: i64,
}

/// The counters as numbers: (started, succeeded, failed, total).
pub struct ProgressCounts {
    pub processing: int,
    pub success: int,
    pub error: int,
    pub total: int,
}

/// The counters after a run over media with the given outcomes, each medium
/// first started and then finished.
pub open spec fn counts_after(total: int, outcomes: Seq<ItemOutcome>) -> ProgressCounts
    decreases outcomes.len(),
{
    if outcomes.len() == 0 {
        ProgressCounts { processing: 0, success: 0, error: 0, total }
    } else {
        let c = counts_after(total, outcomes.drop_last());
        let o = outcomes.last();
        ProgressCounts {
            processing: c.processing + 1,
            success: if succeeded(o) { c.success + 1 } else { c.success },
            error: if succeeded(o) { c.error } else { c.error + 1 },
            total,
        }
    }
}

impl BulkProgress {
    /// The counters as numbers.
    pub closed spec fn counts(&self) -> ProgressCounts {
        ProgressCounts {
            processing: self.processing as int,
            success: self.success as int,
            error: self.error as int,
            total: self.total as int,
        }
    }

    /// Every medium finished was started, and no more media were started
    /// than the edit holds.
    pub closed spec fn wf(&self) -> bool {
        &&& 0 <= self.success
        &&& 0 <= self.error
        &&& self.success + self.error <= self.processing <= self.total
        &&& self.processing <= self.success + self.error + 1
    }

    /// Whether the medium started last has not been finished yet.
    pub open spec fn item_open(&self) -> bool {
        self.counts().success + self.counts().error < self.counts().processing
    }

    /// A new edit over `total` media; nothing started.
    pub fn start(total: usize) -> (r: Self)
        requires
            total <= i64::MAX,
        ensures
            r.wf(),
            r.counts() == counts_after(total as int, seq![]),
    {
        BulkProgress { processing: 0, success: 0, error: 0, total: total as i64 }
    }

    /// The next medium is started.
    pub fn begin_item(&mut self)
        requires
            old(self).wf(),
            !old(self).item_open(),
            old(self).counts().processing < old(self).counts().total,
        ensures
            final(self).wf(),
            final(self).item_open(),
            final(self).counts() == (ProgressCounts {
                processing: old(self).counts().processing + 1,
                ..old(self).counts()
            }),
    {
        self.processing = self.processing + 1;
    }

    /// The medium started last is finished with the given outcome.
    pub fn finish_item(&mut self, outcome: ItemOutcome)
        requires
            old(self).wf(),
            old(self).item_open(),
        ensures
            final(self).wf(),
            !final(self).item_open(),
            final(self).counts() == (ProgressCounts {
                success: if succeeded(outcome) {
                    old(self).counts().success + 1
                } else {
                    old(self).counts().success
                },
                error: if succeeded(outcome) {
                    old(self).counts().error
                } else {
                    old(self).counts().error + 1
                },
                ..old(self).counts()
            }),
    {
        match outcome {
            ItemOutcome::Unchanged | ItemOutcome::Updated => {
                self.success = self.success + 1;
            },
            ItemOutcome::FetchFailed | ItemOutcome::UpdateFailed => {
                self.error = self.error + 1;
            },
        }
    }

    pub fn processing(&self) -> (n: i64)
        ensures
            n == self.counts().processing,
    {
        self.processing
    }

    pub fn success(&self) -> (n: i64)
        ensures
            n == self.counts().success,
    {
        self.success
    }

    pub fn error(&self) -> (n: i64)
        ensures
            n == self.counts().error,
    {
        self.error
    }

    pub fn total(&self) -> (n: i64)
        ensures
            n == self.counts().total,
    {
        self.total
    }

    /// The dialog closes by itself only when no medium failed.
    pub fn should_close(&self) -> (r: bool)
        ensures
            r == (self.counts().error == 0),
    {
        self.error == 0
    }

    /// The status line shown when the edit is over.
    pub fn summary(&self) -> (s: String)
        ensures
            s@ == summary_text(self.counts().success, self.counts().error),
    {
        summary_of(self.success, self.error)
    }
}

/// A run over `outcomes` (started with at most as many media as the edit
/// holds) ends with every medium started counted once, as a success or as a
/// failure, and with the dialog closing exactly when none failed.
pub proof fn lemma_run_accounts_for_every_item(total: int, outcomes: Seq<ItemOutcome>)
    ensures
        counts_after(total, outcomes).processing == outcomes.len(),
        counts_after(total, outcomes).success + counts_after(total, outcomes).error
            == outcomes.len(),
        counts_after(total, outcomes).error == 0 <==> forall|i: int|
            0 <= i < outcomes.len() ==> succeeded(#[trigger] outcomes[i]),
        counts_after(total, outcomes).total == total,
        counts_after(total, outcomes).success >= 0,
        counts_after(total, outcomes).error >= 0,
    decreases outcomes.len(),
{
    if outcomes.len() > 0 {
        let prev = outcomes.drop_last();
        lemma_run_accounts_for_every_item(total, prev);
        let c = counts_after(total, prev);
        let last = outcomes.last();
        assert(last == outcomes[outcomes.len() - 1]);
        assert forall|i: int| 0 <= i < prev.len() implies outcomes[i] == prev[i] by {}
        if c.error == 0 && succeeded(last) {
            assert forall|i: int| 0 <= i < outcomes.len() implies succeeded(#[trigger] outcomes[i]) by {
                if i < prev.len() {
                    assert(outcomes[i] == prev[i]);
                }
            }
        } else if c.error != 0 {
            let k = choose|k: int| 0 <= k < prev.len() && !succeeded(#[trigger] prev[k]);
            assert(outcomes[k] == prev[k]);
            assert(!succeeded(outcomes[k]));
        } else {
            assert(!succeeded(outcomes[outcomes.len() - 1]));
        }
    }
}

// ---------------------------------------------------------------------------
// Texts of a bulk edit
// ---------------------------------------------------------------------------
/// "Adding tags on {n} media items..."
pub open spec fn started_text(n: int) -> Seq<char> {
    "Adding tags on "@ + signed_decimal(n) + " media items..."@
}

/// The final status of a bulk tag edit.
pub open spec fn summary_text(success: int, error: int) -> Seq<char> {
    if error == 0 {
        "Successfully added tags to "@ + signed_decimal(success) + " items"@
    } else {
        "Modified "@ + signed_decimal(success) + " items, "@ + signed_decimal(error)
            + " failed; see browser console"@
    }
}

/// The status line shown when a bulk tag edit starts.
pub fn started_message(n: i64) -> (s: String)
    ensures
        s@ == started_text(n as int),
{
    let d = signed_decimal_text(n);
    concat3("Adding tags on ", d.as_str(), " media items...")
}

fn summary_of(success: i64, error: i64) -> (s: String)
    ensures
        s@ == summary_text(success as int, error as int),
{
    let ds = signed_decimal_text(success);
    if error == 0 {
        concat3("Successfully added tags to ", ds.as_str(), " items")
    } else {
        let de = signed_decimal_text(error);
        let head = concat3("Modified ", ds.as_str(), " items, ");
        let r = concat3(head.as_str(), de.as_str(), " failed; see browser console");
        assert(r@ =~= summary_text(success as int, error as int));
        r
    }
}

/// The title of the bulk tag dialog: "Add Tags to {n} Items".
pub fn bulk_tags_title(n: i64) -> (s: String)
    ensures
        s@ == "Add Tags to "@ + signed_decimal(n as int) + " Items"@,
{
    let d = signed_decimal_text(n);
    concat3("Add Tags to ", d.as_str(), " Items")
}

// ---------------------------------------------------------------------------
// The progress bar
// ---------------------------------------------------------------------------
/// What the progress bar shows.
#[derive(Clone, Copy, Debug, PartialEq, Eq, Structural)]
pub enum ProgressView {
    /// Nothing has run yet.
    Hidden,
    /// Some media have been started and some have not.
    Working { processing: i64, total: i64, success: i64, error: i64 },
    /// The run is over (or every medium has been started).
    Finished { success: i64, error: i64 },
}

/// What the progress bar shows for the given counters.
pub open spec fn progress_view_of(processing: i64, success: i64, error: i64, total: i64) -> ProgressView {
    if processing > 0 && processing < total {
        ProgressView::Working { processing, total, success, error }
    } else if success > 0 || error > 0 {
        ProgressView::Finished { success, error }
    } else {
        ProgressView::Hidden
    }
}

/// What the progress bar shows for the given counters.
pub fn progress_view(processing: i64, success: i64, error: i64, total: i64) -> (v: ProgressView)
    ensures
        v == progress_view_of(processing, success, error, total),
{
    if processing > 0 && processing < total {
        ProgressView::Working { processing, total, success, error }
    } else if success > 0 || error > 0 {
        ProgressView::Finished { success, error }
    } else {
        ProgressView::Hidden
    }
}

/// "Processing... {p} of {t} items"
pub fn working_text(processing: i64, total: i64) -> (s: String)
    ensures
        s@ == "Processing... "@ + signed_decimal(processing as int) + " of "@ + signed_decimal(
            total as int,
        ) + " items"@,
{
    let dp = signed_decimal_text(processing);
    let dt = signed_decimal_text(total);
    let head = concat3("Processing... ", dp.as_str(), " of ");
    concat3(head.as_str(), dt.as_str(), " items")
}

/// "Success: {s}"
pub fn success_text(success: i64) -> (s: String)
    ensures
        s@ == "Success: "@ + signed_decimal(success as int),
{
    let d = signed_decimal_text(success);
    concat("Success: ", d.as_str())
}

/// "Failed: {e}"
pub fn failed_text(error: i64) -> (s: String)
    ensures
        s@ == "Failed: "@ + signed_decimal(error as int),
{
    let d = signed_decimal_text(error);
    concat("Failed: ", d.as_str())
}

/// The result line of a finished run.
pub open spec fn finished_text_of(success: int, error: int) -> Seq<char> {
    if error == 0 {
        "Successfully modified "@ + signed_decimal(success) + " items"@
    } else {
        "Modified "@ + signed_decimal(success) + " items, "@ + signed_decimal(error)
            + " failed"@
    }
}

/// The result line of a finished run.
pub fn finished_text(success: i64, error: i64) -> (s: String)
    ensures
        s@ == finished_text_of(success as int, error as int),
{
    let ds = signed_decimal_text(success);
    if error == 0 {
        concat3("Successfully modified ", ds.as_str(), " items")
    } else {
        let de = signed_decimal_text(error);
        let head = concat3("Modified ", ds.as_str(), " items, ");
        let r = concat3(head.as_str(), de.as_str(), " failed");
        assert(r@ =~= finished_text_of(success as int, error as int));
        r
    }
}

/// The background of the result box: red tint when something failed, green
/// tint otherwise.
pub fn finished_style(error: i64) -> (s: &'static str)
    ensures
        error > 0 ==> s@ == "background-color: rgba(239, 68, 68, 0.1);"@,
        error <= 0 ==> s@ == "background-color: rgba(16, 185, 129, 0.1);"@,
{
    if error > 0 {
        "background-color: rgba(239, 68, 68, 0.1);"
    } else {
        "background-color: rgba(16, 185, 129, 0.1);"
    }
}

/// The final status line of a bulk tag edit: "Successfully added tags to
/// {s} items" exactly when no medium failed, and otherwise the number
/// modified and the number that failed, pointing at the browser console.
pub proof fn lemma_summary_reports_failures(success: int, error: int)
    ensures
        error == 0 ==> summary_text(success, error) == "Successfully added tags to "@ + signed_decimal(
            success,
        ) + " items"@,
        error != 0 ==> summary_text(success, error) == "Modified "@ + signed_decimal(success)
            + " items, "@ + signed_decimal(error) + " failed; see browser console"@,
{
}

/// Over a whole run, the status line is the success line exactly when every
/// medium succeeded, and reports the failures whenever one failed.
pub proof fn lemma_run_summary(total: int, outcomes: Seq<ItemOutcome>)
    ensures
        (forall|i: int| 0 <= i < outcomes.len() ==> succeeded(#[trigger] outcomes[i]))
            ==> summary_text(
            counts_after(total, outcomes).success,
            counts_after(total, outcomes).error,
        ) == "Successfully added tags to "@ + signed_decimal(counts_after(total, outcomes).success)
            + " items"@,
        (exists|i: int| 0 <= i < outcomes.len() && !succeeded(#[trigger] outcomes[i])) ==> summary_text(
            counts_after(total, outcomes).success,
            counts_after(total, outcomes).error,
        ) == "Modified "@ + signed_decimal(counts_after(total, outcomes).success) + " items, "@
            + signed_decimal(counts_after(total, outcomes).error)
            + " failed; see browser console"@,
{
    lemma_run_accounts_for_every_item(total, outcomes);
    lemma_summary_reports_failures(
        counts_after(total, outcomes).success,
        counts_after(total, outcomes).error,
    );
}

/// The progress box: while some but not all media have been started it is
/// the bar with exactly the given counters, whatever they say; otherwise it
/// is the result box once anything succeeded or failed, and nothing before.
pub proof fn lemma_progress_view_cases(processing: i64, success: i64, error: i64, total: i64)
    ensures
        0 < processing < total ==> progress_view_of(processing, success, error, total)
            == (ProgressView::Working { processing, total, success, error }),
        !(0 < processing < total) && (success > 0 || error > 0) ==> progress_view_of(
            processing,
            success,
            error,
            total,
        ) == (ProgressView::Finished { success, error }),
        !(0 < processing < total) && success <= 0 && error <= 0 ==> progress_view_of(
            processing,
            success,
            error,
            total,
        ) == ProgressView::Hidden,
{
}

/// During a run over `total` media the box shows the bar with the run's
/// counters until the last medium is started, and then the result box with
/// its successes and failures.
pub proof fn lemma_progress_view_of_run(total: i64, outcomes: Seq<ItemOutcome>)
    requires
        0 < outcomes.len() <= total,
    ensures
        outcomes.len() < total ==> progress_view_of(
            counts_after(total as int, outcomes).processing as i64,
            counts_after(total as int, outcomes).success as i64,
            counts_after(total as int, outcomes).error as i64,
            total,
        ) == (ProgressView::Working {
            processing: outcomes.len() as i64,
            total,
            success: counts_after(total as int, outcomes).success as i64,
            error: counts_after(total as int, outcomes).error as i64,
        }),
        outcomes.len() == total ==> progress_view_of(
            counts_after(total as int, outcomes).processing as i64,
            counts_after(total as int, outcomes).success as i64,
            counts_after(total as int, outcomes).error as i64,
            total,
        ) == (ProgressView::Finished {
            success: counts_after(total as int, outcomes).success as i64,
            error: counts_after(total as int, outcomes).error as i64,
        }),
{
    lemma_run_accounts_for_every_item(total as int, outcomes);
    let c = counts_after(total as int, outcomes);
    assert(c.processing as i64 == outcomes.len());
    assert(c.success as i64 == c.success);
    assert(c.error as i64 == c.error);
    lemma_progress_view_cases(c.processing as i64, c.success as i64, c.error as i64, total);
}

} // verus!
