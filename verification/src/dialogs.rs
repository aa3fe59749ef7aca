use vstd::prelude::*;

use crate::text::{concat, decimal, decimal_text};

verus! {

/// How long a dialog that succeeded stays open to show its message, in
/// milliseconds.
pub const CLOSE_DELAY_MS: u32 = 1500;

/// What a dialog's request achieved, when the server accepted it.
#[derive(Clone, Copy, Debug, PartialEq, Eq, Structural)]
pub enum Done {
    /// A new album, with the id the server gave it.
    AlbumCreated(u64),
    AlbumUpdated,
    AlbumDeleted,
    MediaAddedToAlbum,
    MediaRemovedFromAlbum,
    CommentDeleted,
    TaskStarted,
    TaskStopped,
    /// The changes of the media details dialog.
    ChangesSaved,
}

/// The message a dialog shows when its request succeeded.
pub open spec fn done_text(d: Done) -> Seq<char> {
    match d {
        Done::AlbumCreated(id) => "Album created with ID: "@ + decimal(id as nat),
        Done::AlbumUpdated => "Album updated successfully"@,
        Done::AlbumDeleted => "Album deleted successfully"@,
        Done::MediaAddedToAlbum => "Media added to album successfully"@,
        Done::MediaRemovedFromAlbum => "Media removed from album"@,
        Done::CommentDeleted => "Comment deleted"@,
        Done::TaskStarted => "Task started successfully"@,
        Done::TaskStopped => "Task stopped"@,
        Done::ChangesSaved => "Changes saved successfully"@,
    }
}

/// Whether the dialog closes by itself, after `CLOSE_DELAY_MS`, once its
/// request succeeded: every one does but the media details dialog, which
/// stays open for further edits.
pub open spec fn closes_after(d: Done) -> bool {
    d != Done::ChangesSaved
}

/// What a dialog does once the server has answered its request.
pub struct DialogOutcome {
    /// The status line shown in the dialog's footer.
    pub message: String,
    /// Whether the page behind is told to load its data again.
    pub refresh: bool,
    /// Whether the dialog closes after `CLOSE_DELAY_MS`.
    pub close_later: bool,
}

/// The outcome of a dialog's request: on success the request's message, a
/// refresh of the page behind and, for all but the media details dialog, a
/// delayed close; on failure "Error: " and the server's error, and the
/// dialog stays open with the page untouched.
pub fn dialog_outcome(r: Result<Done, String>) -> (o: DialogOutcome)
    ensures
        r matches Ok(d) ==> o.message@ == done_text(d) && o.refresh && o.close_later == closes_after(d),
        r matches Err(e) ==> o.message@ == "Error: "@ + e@ && !o.refresh && !o.close_later,
{
    match r {
        Ok(d) => {
            let message = match d {
                Done::AlbumCreated(id) => {
                    let n = decimal_text(id);
                    concat("Album created with ID: ", n.as_str())
                },
                Done::AlbumUpdated => "Album updated successfully".to_owned(),
                Done::AlbumDeleted => "Album deleted successfully".to_owned(),
                Done::MediaAddedToAlbum => "Media added to album successfully".to_owned(),
                Done::MediaRemovedFromAlbum => "Media removed from album".to_owned(),
                Done::CommentDeleted => "Comment deleted".to_owned(),
                Done::TaskStarted => "Task started successfully".to_owned(),
                Done::TaskStopped => "Task stopped".to_owned(),
                Done::ChangesSaved => "Changes saved successfully".to_owned(),
            };
            let close_later = match d {
                Done::ChangesSaved => false,
                _ => true,
            };
            DialogOutcome { message, refresh: true, close_later }
        },
        Err(e) => DialogOutcome { message: concat("Error: ", e.as_str()), refresh: false, close_later: false },
    }
}

/// The status line of the media details dialog after "Save Changes".
pub fn save_status(r: Result<(), String>) -> (s: String)
    ensures
        r matches Ok(_) ==> s@ == "Changes saved successfully"@,
        r matches Err(e) ==> s@ == "Error: "@ + e@,
{
    let o = match r {
        Ok(_) => dialog_outcome(Ok(Done::ChangesSaved)),
        Err(e) => dialog_outcome(Err(e)),
    };
    o.message
}

/// The status line of the start-task dialog after "Start Task".
pub fn task_status(r: Result<(), String>) -> (s: String)
    ensures
        r matches Ok(_) ==> s@ == "Task started successfully"@,
        r matches Err(e) ==> s@ == "Error: "@ + e@,
{
    let o = match r {
        Ok(_) => dialog_outcome(Ok(Done::TaskStarted)),
        Err(e) => dialog_outcome(Err(e)),
    };
    o.message
}

/// The status line shown while a dialog's request is on its way.
#[derive(Clone, Copy, Debug, PartialEq, Eq, Structural)]
pub enum Pending {
    CreatingAlbum,
    AddingMediaToAlbum,
    StartingTask,
}

pub fn pending_text(p: Pending) -> (s: &'static str)
    ensures
        p == Pending::CreatingAlbum ==> s@ == "Creating album..."@,
        p == Pending::AddingMediaToAlbum ==> s@ == "Adding media to album..."@,
        p == Pending::StartingTask ==> s@ == "Starting task..."@,
{
    match p {
        Pending::CreatingAlbum => "Creating album...",
        Pending::AddingMediaToAlbum => "Adding media to album...",
        Pending::StartingTask => "Starting task...",
    }
}

} // verus!
