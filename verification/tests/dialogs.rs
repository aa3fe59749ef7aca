use std::collections::HashSet;

use entanglement_webapp::bulk_run::BulkTagRun;
use entanglement_webapp::dialogs::{
    dialog_outcome, pending_text, save_status, task_status, Done, Pending, CLOSE_DELAY_MS,
};
use entanglement_webapp::media_detail::{
    album_lines, detail_save_update, load_error_text, preview_for, unsupported_text, MediaFields,
    MediaKind, Preview,
};
use entanglement_webapp::messages::{album_note_text, album_picker_line};
use entanglement_webapp::tags::TagEditMode;
use entanglement_webapp::tasks::{
    cancel_refreshes, completed_text, history_load_error, history_row_class, stop_prompt,
    task_status_style, task_type_style, tasks_fetch_error, warnings_cell, StopPrompt, TaskKind,
    TaskStatus, WarningsCell,
};

fn tags(v: &[&str]) -> Vec<String> {
    v.iter().map(|s| s.to_string()).collect()
}

#[test]
fn successful_requests_report_and_close() {
    let o = dialog_outcome(Ok(Done::AlbumCreated(42)));
    assert_eq!(o.message, "Album created with ID: 42");
    assert!(o.refresh && o.close_later);
    let cases = [
        (Done::AlbumUpdated, "Album updated successfully"),
        (Done::AlbumDeleted, "Album deleted successfully"),
        (Done::MediaAddedToAlbum, "Media added to album successfully"),
        (Done::MediaRemovedFromAlbum, "Media removed from album"),
        (Done::CommentDeleted, "Comment deleted"),
        (Done::TaskStarted, "Task started successfully"),
        (Done::TaskStopped, "Task stopped"),
    ];
    for (d, text) in cases {
        let o = dialog_outcome(Ok(d));
        assert_eq!(o.message, text);
        assert!(o.refresh && o.close_later);
    }
    assert_eq!(CLOSE_DELAY_MS, 1500);
}

#[test]
fn saving_media_details_keeps_the_dialog_open() {
    let o = dialog_outcome(Ok(Done::ChangesSaved));
    assert_eq!(o.message, "Changes saved successfully");
    assert!(o.refresh);
    assert!(!o.close_later);
}

#[test]
fn refused_requests_show_the_error_and_stay() {
    let o = dialog_outcome(Err("not allowed".to_string()));
    assert_eq!(o.message, "Error: not allowed");
    assert!(!o.refresh && !o.close_later);
    assert_eq!(save_status(Ok(())), "Changes saved successfully");
    assert_eq!(save_status(Err("boom".to_string())), "Error: boom");
    assert_eq!(task_status(Ok(())), "Task started successfully");
    assert_eq!(task_status(Err("busy".to_string())), "Error: busy");
}

#[test]
fn pending_lines() {
    assert_eq!(pending_text(Pending::CreatingAlbum), "Creating album...");
    assert_eq!(pending_text(Pending::AddingMediaToAlbum), "Adding media to album...");
    assert_eq!(pending_text(Pending::StartingTask), "Starting task...");
}

#[test]
fn save_changes_sends_the_date_as_note() {
    let shown = MediaFields {
        hidden: true,
        date: "2021-03-04".to_string(),
        note: "beach".to_string(),
    };
    let u = detail_save_update(&shown);
    assert_eq!(u.hidden, Some(true));
    assert_eq!(u.date.as_deref(), Some("2021-03-04"));
    assert_eq!(u.note.as_deref(), Some("2021-03-04"));
}

#[test]
fn media_previews_by_kind() {
    assert_eq!(preview_for(MediaKind::Image), Preview::FullImage);
    assert_eq!(preview_for(MediaKind::Video), Preview::VideoPlayer);
    assert_eq!(preview_for(MediaKind::Other), Preview::Unsupported);
    assert_eq!(unsupported_text(), "Unsupported media type");
    assert_eq!(load_error_text("timeout"), "Failed to load media: timeout");
}

#[test]
fn album_section_lines() {
    assert_eq!(album_lines(&vec![]), vec!["Not in any albums".to_string()]);
    assert_eq!(
        album_lines(&vec![7, 120]),
        vec!["Album #7".to_string(), "Album #120".to_string()]
    );
}

#[test]
fn album_texts() {
    assert_eq!(album_note_text(""), "(No description)");
    assert_eq!(album_note_text("trip"), "trip");
    assert_eq!(album_picker_line("family", "No description"), "Group: family \u{2022} No description");
}

#[test]
fn task_choices() {
    assert_eq!(TaskKind::default(), TaskKind::ScanLibrary);
    assert_eq!(TaskKind::ScanLibrary.title(), "Scan Library");
    assert_eq!(TaskKind::CleanLibrary.title(), "Clean Library");
    assert_eq!(TaskKind::RunScripts.title(), "Run Scripts");
    assert_eq!(
        TaskKind::CleanLibrary.description(),
        "Remove references to files that no longer exist in the filesystem."
    );
}

#[test]
fn task_history_cells() {
    assert_eq!(history_row_class(0), "");
    assert_eq!(history_row_class(1), "row-alt");
    assert_eq!(history_row_class(4), "");
    assert_eq!(completed_text(None), "-");
    assert!(completed_text(Some(0)).starts_with("19"));
    assert_eq!(completed_text(Some(u64::MAX)), "error parsing timestamp");
    assert_eq!(warnings_cell(None), WarningsCell::Unknown);
    assert_eq!(warnings_cell(Some(0)), WarningsCell::NoWarnings);
    assert_eq!(warnings_cell(Some(3)), WarningsCell::Warnings(3));
    assert_eq!(task_type_style(TaskStatus::Running), "font-weight: 600; color: var(--primary);");
    assert_eq!(task_type_style(TaskStatus::Success), "");
    assert_eq!(task_status_style(TaskStatus::Success), "color: var(--success);");
    assert_eq!(task_status_style(TaskStatus::Aborted), "color: var(--error);");
    assert_eq!(task_status_style(TaskStatus::Other), "color: var(--text-tertiary);");
    assert_eq!(tasks_fetch_error("x"), "Error fetching tasks: x");
    assert_eq!(history_load_error("y"), "Failed to load task history: y");
}

#[test]
fn stop_task_only_when_running() {
    assert_eq!(stop_prompt(Some(TaskStatus::Running)), StopPrompt::ConfirmStop);
    assert_eq!(stop_prompt(Some(TaskStatus::Success)), StopPrompt::NoRunningTask);
    assert_eq!(stop_prompt(None), StopPrompt::NeverRan);
    assert!(StopPrompt::ConfirmStop.can_stop());
    assert!(!StopPrompt::NeverRan.can_stop());
    assert_eq!(StopPrompt::NoRunningTask.text(), Some("No running task found"));
    assert_eq!(StopPrompt::NeverRan.text(), Some("Library has not run any tasks"));
    assert_eq!(StopPrompt::ConfirmStop.text(), None);
    assert!(cancel_refreshes(StopPrompt::NoRunningTask));
    assert!(!cancel_refreshes(StopPrompt::ConfirmStop));
}

#[test]
fn bulk_run_hands_each_medium_out_once() {
    let picked: HashSet<u64> = [11, 12, 13].into_iter().collect();
    let mut run = BulkTagRun::start(TagEditMode::Add, tags(&["sun"]), &picked);
    let mut seen = Vec::new();
    while let Some(m) = run.next_medium() {
        seen.push(m);
        match m {
            // could not be fetched
            11 => assert_eq!(run.fetched(None), None),
            // already tagged: nothing to send
            12 => assert_eq!(run.fetched(Some(&tags(&["sun", "sea"]))), None),
            // needs the tag: the update is refused
            _ => {
                let mut new_tags = run.fetched(Some(&tags(&["sea"]))).unwrap();
                new_tags.sort();
                assert_eq!(new_tags, tags(&["sea", "sun"]));
                run.updated(false);
            }
        }
    }
    seen.sort();
    assert_eq!(seen, vec![11, 12, 13]);
    assert_eq!(run.next_medium(), None);
    let p = run.progress();
    assert_eq!((p.processing(), p.success(), p.error(), p.total()), (3, 1, 2, 3));
    assert!(!p.should_close());
    assert_eq!(p.summary(), "Modified 1 items, 2 failed; see browser console");
}

#[test]
fn bulk_run_removing_tags_succeeds() {
    let picked: HashSet<u64> = [5].into_iter().collect();
    let mut run = BulkTagRun::start(TagEditMode::Remove, tags(&["old"]), &picked);
    assert_eq!(run.next_medium(), Some(5));
    let new_tags = run.fetched(Some(&tags(&["old", "keep"]))).unwrap();
    assert_eq!(new_tags, tags(&["keep"]));
    run.updated(true);
    assert_eq!(run.next_medium(), None);
    let p = run.progress();
    assert!(p.should_close());
    assert_eq!(p.summary(), "Successfully added tags to 1 items");
}
