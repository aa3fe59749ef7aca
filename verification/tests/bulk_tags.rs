use entanglement_webapp::progress::{
    bulk_tags_title, failed_text, finished_style, finished_text, progress_view, started_message,
    success_text, working_text, BulkProgress, ItemOutcome, ProgressView,
};
use entanglement_webapp::tags::{plan_tag_edit, TagEditMode};

fn tags(v: &[&str]) -> Vec<String> {
    v.iter().map(|s| s.to_string()).collect()
}

fn sorted(mut v: Vec<String>) -> Vec<String> {
    v.sort();
    v
}

#[test]
fn adding_present_tags_needs_no_update() {
    assert_eq!(plan_tag_edit(TagEditMode::Add, &tags(&["a", "b"]), &tags(&["b"])), None);
    assert_eq!(plan_tag_edit(TagEditMode::Add, &tags(&["a"]), &tags(&[])), None);
}

#[test]
fn adding_missing_tags_unites() {
    let r = plan_tag_edit(TagEditMode::Add, &tags(&["a", "b"]), &tags(&["b", "c"])).unwrap();
    assert_eq!(sorted(r), tags(&["a", "b", "c"]));
}

#[test]
fn removing_absent_tags_needs_no_update() {
    assert_eq!(plan_tag_edit(TagEditMode::Remove, &tags(&["a"]), &tags(&["x", "y"])), None);
}

#[test]
fn removing_present_tags_subtracts() {
    let r = plan_tag_edit(TagEditMode::Remove, &tags(&["a", "b", "c"]), &tags(&["b", "z"])).unwrap();
    assert_eq!(sorted(r), tags(&["a", "c"]));
    let r = plan_tag_edit(TagEditMode::Remove, &tags(&["a"]), &tags(&["a"])).unwrap();
    assert!(r.is_empty());
}

#[test]
fn bulk_run_counts_each_medium_once() {
    let mut p = BulkProgress::start(4);
    let outcomes = [
        ItemOutcome::Updated,
        ItemOutcome::Unchanged,
        ItemOutcome::FetchFailed,
        ItemOutcome::UpdateFailed,
    ];
    for o in outcomes {
        p.begin_item();
        p.finish_item(o);
    }
    assert_eq!(p.processing(), 4);
    assert_eq!(p.success(), 2);
    assert_eq!(p.error(), 2);
    assert_eq!(p.total(), 4);
    assert!(!p.should_close());
    assert_eq!(p.summary(), "Modified 2 items, 2 failed; see browser console");
}

#[test]
fn bulk_run_without_failures_closes() {
    let mut p = BulkProgress::start(2);
    p.begin_item();
    p.finish_item(ItemOutcome::Updated);
    p.begin_item();
    p.finish_item(ItemOutcome::Unchanged);
    assert!(p.should_close());
    assert_eq!(p.summary(), "Successfully added tags to 2 items");
}

#[test]
fn bulk_texts() {
    assert_eq!(started_message(3), "Adding tags on 3 media items...");
    assert_eq!(bulk_tags_title(12), "Add Tags to 12 Items");
}

#[test]
fn progress_bar_states() {
    assert_eq!(progress_view(0, 0, 0, 5), ProgressView::Hidden);
    assert_eq!(
        progress_view(2, 1, 0, 5),
        ProgressView::Working { processing: 2, total: 5, success: 1, error: 0 }
    );
    assert_eq!(progress_view(5, 4, 1, 5), ProgressView::Finished { success: 4, error: 1 });
    assert_eq!(progress_view(5, 0, 0, 5), ProgressView::Hidden);
    assert_eq!(working_text(2, 5), "Processing... 2 of 5 items");
    assert_eq!(success_text(1), "Success: 1");
    assert_eq!(failed_text(3), "Failed: 3");
    assert_eq!(finished_text(4, 0), "Successfully modified 4 items");
    assert_eq!(finished_text(4, 1), "Modified 4 items, 1 failed");
    assert_eq!(finished_style(1), "background-color: rgba(239, 68, 68, 0.1);");
    assert_eq!(finished_style(0), "background-color: rgba(16, 185, 129, 0.1);");
}
