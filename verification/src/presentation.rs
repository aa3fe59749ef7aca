use vstd::prelude::*;

use crate::selection::{picked, BulkSelection};
use crate::text::same_text;

verus! {

/// The CSS class of a tab button: the shown tab is marked active.
pub fn tab_button_class(shown: &str, name: &str) -> (s: &'static str)
    ensures
        shown@ == name@ ==> s@ == "tab-button active"@,
        shown@ != name@ ==> s@ == "tab-button"@,
{
    if same_text(shown, name) {
        "tab-button active"
    } else {
        "tab-button"
    }
}

/// The extra style of a tab button: the shown tab is colored.
pub fn tab_button_accent(shown: &str, name: &str) -> (s: &'static str)
    ensures
        shown@ == name@ ==> s@ == "color: var(--primary); border-bottom-color: var(--primary);"@,
        shown@ != name@ ==> s@ == ""@,
{
    if same_text(shown, name) {
        "color: var(--primary); border-bottom-color: var(--primary);"
    } else {
        ""
    }
}

/// The CSS class of a choice in the task and tag-mode pickers.
pub fn option_class(selected: bool) -> (s: &'static str)
    ensures
        selected ==> s@ == "task-option selected"@,
        !selected ==> s@ == "task-option"@,
{
    if selected {
        "task-option selected"
    } else {
        "task-option"
    }
}

/// The CSS class of an album in the album picker.
pub fn album_item_class(selected: bool) -> (s: &'static str)
    ensures
        selected ==> s@ == "album-item selected"@,
        !selected ==> s@ == "album-item"@,
{
    if selected {
        "album-item selected"
    } else {
        "album-item"
    }
}

/// The description of an album in the album picker: its note, or
/// "No description" when the note is empty.
pub fn album_description(note: &str) -> (s: String)
    ensures
        note@.len() == 0 ==> s@ == "No description"@,
        note@.len() > 0 ==> s@ == note@,
{
    if note.is_empty() {
        "No description".to_owned()
    } else {
        note.to_owned()
    }
}

/// The style of a medium's card: picked cards get a border in bulk edit mode.
pub fn card_style(selection: &BulkSelection, media: u64) -> (s: &'static str)
    ensures
        picked(selection@, media) ==> s@
            == "position: relative; border: 3px solid var(--primary); transform: scale(0.98);"@,
        !picked(selection@, media) ==> s@ == "position: relative;"@,
{
    if selection.is_enabled() && selection.is_selected(media) {
        "position: relative; border: 3px solid var(--primary); transform: scale(0.98);"
    } else {
        "position: relative;"
    }
}

} // verus!
