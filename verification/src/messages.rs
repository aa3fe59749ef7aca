use vstd::prelude::*;

use crate::text::{concat, concat3, decimal, decimal_text, first_line, first_line_of};

verus! {

/// Where a search request stands.
#[derive(Clone, Copy, Debug, PartialEq, Eq, Structural)]
pub enum SearchOutcome {
    /// No answer yet.
    Loading,
    /// The request failed.
    Failed,
    /// The request found this many results.
    Found(usize),
}

/// The status line of a search page over some kind of things ("albums",
/// "collections").
pub open spec fn search_status_text(outcome: SearchOutcome, noun: Seq<char>) -> Seq<char> {
    match outcome {
        SearchOutcome::Loading => "Loading..."@,
        SearchOutcome::Failed => "Error searching "@ + noun,
        SearchOutcome::Found(n) => "Found "@ + decimal(n as nat) + " "@ + noun,
    }
}

/// The status line of a search page, e.g. "Found 3 albums".
pub fn search_status(outcome: SearchOutcome, noun: &str) -> (s: String)
    ensures
        s@ == search_status_text(outcome, noun@),
{
    match outcome {
        SearchOutcome::Loading => "Loading...".to_owned(),
        SearchOutcome::Failed => concat("Error searching ", noun),
        SearchOutcome::Found(n) => {
            let d = decimal_text(n as u64);
            let head = concat3("Found ", d.as_str(), " ");
            concat(head.as_str(), noun)
        },
    }
}

/// The status line of the gallery's media search.
pub open spec fn gallery_status_text(outcome: SearchOutcome, error: Seq<char>) -> Seq<char> {
    match outcome {
        SearchOutcome::Loading => "still awaiting search_media future..."@,
        SearchOutcome::Failed => "error while searching: "@ + error,
        SearchOutcome::Found(n) => "found "@ + decimal(n as nat) + " results"@,
    }
}

/// The status line of the gallery's media search; `error` is the text of
/// the failure, used when the search failed.
pub fn gallery_status(outcome: SearchOutcome, error: &str) -> (s: String)
    ensures
        s@ == gallery_status_text(outcome, error@),
{
    match outcome {
        SearchOutcome::Loading => "still awaiting search_media future...".to_owned(),
        SearchOutcome::Failed => concat("error while searching: ", error),
        SearchOutcome::Found(n) => {
            let d = decimal_text(n as u64);
            concat3("found ", d.as_str(), " results")
        },
    }
}

/// "Found {n} items in this {place}" above the media of an album or a
/// collection.
pub fn items_found(n: usize, place: &str) -> (s: String)
    ensures
        s@ == "Found "@ + decimal(n as nat) + " items in this "@ + place@,
{
    let d = decimal_text(n as u64);
    let head = concat3("Found ", d.as_str(), " items in this ");
    concat(head.as_str(), place)
}

/// "{n} items selected" in the bulk edit tab.
pub fn items_selected(n: usize) -> (s: String)
    ensures
        s@ == decimal(n as nat) + " items selected"@,
{
    let d = decimal_text(n as u64);
    concat(d.as_str(), " items selected")
}

/// "Showing {n} album" or "Showing {n} albums": plural unless there is
/// exactly one.
pub fn albums_shown(n: usize) -> (s: String)
    ensures
        n == 1 ==> s@ == "Showing "@ + decimal(n as nat) + " album"@,
        n != 1 ==> s@ == "Showing "@ + decimal(n as nat) + " albums"@,
{
    let d = decimal_text(n as u64);
    if n == 1 {
        concat3("Showing ", d.as_str(), " album")
    } else {
        concat3("Showing ", d.as_str(), " albums")
    }
}

/// "Showing {n} task(s)" under the task history.
pub fn tasks_shown(n: usize) -> (s: String)
    ensures
        s@ == "Showing "@ + decimal(n as nat) + " task(s)"@,
{
    let d = decimal_text(n as u64);
    concat3("Showing ", d.as_str(), " task(s)")
}

/// "Total members: {n}" under a group's members.
pub fn total_members(n: usize) -> (s: String)
    ensures
        s@ == "Total members: "@ + decimal(n as nat),
{
    let d = decimal_text(n as u64);
    concat("Total members: ", d.as_str())
}

/// "Album #{id}", the name shown for an album whose details are not loaded.
pub fn album_placeholder_name(album: u64) -> (s: String)
    ensures
        s@ == "Album #"@ + decimal(album as nat),
{
    let d = decimal_text(album);
    concat("Album #", d.as_str())
}

/// The summary of a medium's note on its card: "No description" for an
/// empty note, otherwise the note's first line.
pub open spec fn note_summary_text(note: Seq<char>) -> Seq<char> {
    if note.len() == 0 {
        "No description"@
    } else {
        first_line(note)
    }
}

/// The summary of a medium's note on its card.
pub fn note_summary(note: &str) -> (s: String)
    ensures
        s@ == note_summary_text(note@),
{
    if note.is_empty() {
        "No description".to_owned()
    } else {
        first_line_of(note)
    }
}

/// The alternative text of a medium's picture: its note, or "Media {id}"
/// when the note is empty.
pub fn media_alt_text(media: u64, note: &str) -> (s: String)
    ensures
        note@.len() == 0 ==> s@ == "Media "@ + decimal(media as nat),
        note@.len() > 0 ==> s@ == note@,
{
    if note.is_empty() {
        let d = decimal_text(media);
        concat("Media ", d.as_str())
    } else {
        note.to_owned()
    }
}

/// An album's note on its card and in the album table: the note, or
/// "(No description)" when it is empty.
pub fn album_note_text(note: &str) -> (s: String)
    ensures
        note@.len() == 0 ==> s@ == "(No description)"@,
        note@.len() > 0 ==> s@ == note@,
{
    if note.is_empty() {
        "(No description)".to_owned()
    } else {
        note.to_owned()
    }
}

/// The second line of an album in the album picker: the group, a bullet and
/// the description.
pub fn album_picker_line(group: &str, description: &str) -> (s: String)
    ensures
        s@ == "Group: "@ + group@ + " \u{2022} "@ + description@,
{
    let head = concat3("Group: ", group, " \u{2022} ");
    concat(head.as_str(), description)
}

} // verus!
