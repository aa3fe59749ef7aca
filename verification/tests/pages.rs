use entanglement_webapp::links::{full_link, storage_key, thumbnail_link};
use entanglement_webapp::messages::{
    album_placeholder_name, albums_shown, gallery_status, items_found, items_selected,
    media_alt_text, note_summary, search_status, tasks_shown, total_members, SearchOutcome,
};
use entanglement_webapp::time::{local_time, local_time_text};

#[test]
fn search_status_lines() {
    assert_eq!(search_status(SearchOutcome::Loading, "albums"), "Loading...");
    assert_eq!(search_status(SearchOutcome::Failed, "albums"), "Error searching albums");
    assert_eq!(search_status(SearchOutcome::Found(3), "collections"), "Found 3 collections");
    assert_eq!(gallery_status(SearchOutcome::Found(12), ""), "found 12 results");
    assert_eq!(gallery_status(SearchOutcome::Failed, "timeout"), "error while searching: timeout");
    assert_eq!(gallery_status(SearchOutcome::Loading, ""), "still awaiting search_media future...");
}

#[test]
fn counts_in_page_texts() {
    assert_eq!(items_found(0, "album"), "Found 0 items in this album");
    assert_eq!(items_found(7, "collection"), "Found 7 items in this collection");
    assert_eq!(items_selected(2), "2 items selected");
    assert_eq!(albums_shown(1), "Showing 1 album");
    assert_eq!(albums_shown(0), "Showing 0 albums");
    assert_eq!(albums_shown(4), "Showing 4 albums");
    assert_eq!(tasks_shown(3), "Showing 3 task(s)");
    assert_eq!(total_members(5), "Total members: 5");
    assert_eq!(album_placeholder_name(42), "Album #42");
}

#[test]
fn media_card_texts() {
    assert_eq!(note_summary(""), "No description");
    assert_eq!(note_summary("Sunset\nat the beach"), "Sunset");
    assert_eq!(note_summary("\nsecond"), "");
    assert_eq!(media_alt_text(9, ""), "Media 9");
    assert_eq!(media_alt_text(9, "Dog"), "Dog");
}

#[test]
fn media_links() {
    assert_eq!(full_link(17), "/entanglement/media/full/17");
    assert_eq!(thumbnail_link(17), "/entanglement/media/thumbnails/17");
}

#[test]
fn storage_keys_are_prefixed() {
    assert_eq!(storage_key("album_search"), "entanglement_album_search");
    assert_ne!(storage_key("a"), storage_key("b"));
}

#[test]
fn out_of_range_times_are_reported() {
    assert_eq!(local_time(u64::MAX), "error parsing timestamp");
    assert_eq!(local_time(1u64 << 63), "error parsing timestamp");
    assert_eq!(local_time_text(None), "error parsing timestamp");
    assert_eq!(local_time_text(Some("2024-01-01".to_string())), "2024-01-01");
}

#[test]
fn times_in_range_are_written() {
    let t = local_time(0);
    assert!(t.starts_with("1970-01-01") || t.starts_with("1969-12-31"), "{}", t);
    // beyond chrono's range of years
    assert_eq!(local_time(i64::MAX as u64), "error parsing timestamp");
    // the seconds given are the ones written, not some other time
    let later = local_time(1_700_000_000);
    assert!(later.starts_with("2023-11-14") || later.starts_with("2023-11-15"), "{}", later);
}
