use std::collections::HashSet;

use entanglement_webapp::forms::{check_album_edit, check_new_album, members_panel, should_lookup_group, MembersPanel};
use entanglement_webapp::modal::{BulkEditMode, Modal, ModalSize, ModalStack, SidebarSide};
use entanglement_webapp::presentation::{
    album_description, album_item_class, card_style, option_class, tab_button_accent, tab_button_class,
};
use entanglement_webapp::selection::BulkSelection;
use entanglement_webapp::zoom::Zoom;

#[test]
fn modal_stack_shows_the_last_opened() {
    let mut stack = ModalStack::new();
    assert_eq!(stack.top(), None);
    stack.open(Modal::EnhancedImageView(3));
    stack.open(Modal::DeleteComment(10, 3));
    assert_eq!(stack.depth(), 2);
    assert_eq!(stack.top(), Some(&Modal::DeleteComment(10, 3)));
    assert_eq!(stack.close(), Some(Modal::DeleteComment(10, 3)));
    assert_eq!(stack.top(), Some(&Modal::EnhancedImageView(3)));
}

#[test]
fn closing_with_nothing_open_changes_nothing() {
    let mut stack = ModalStack::new();
    assert_eq!(stack.close(), None);
    assert_eq!(stack.depth(), 0);
}

#[test]
fn replace_top_swaps_the_shown_dialog() {
    let mut stack = ModalStack::new();
    stack.open(Modal::StartTask(1));
    stack.open(Modal::AddMediaToCollection(4));
    stack.replace_top(Modal::CreateCollection);
    assert_eq!(stack.depth(), 2);
    assert_eq!(stack.top(), Some(&Modal::CreateCollection));
    let mut empty = ModalStack::new();
    empty.replace_top(Modal::CreateCollection);
    assert_eq!(empty.depth(), 1);
}

#[test]
fn modal_sizes_bound_the_width() {
    assert_eq!(ModalSize::default(), ModalSize::Medium);
    assert_eq!(ModalSize::Small.max_width_style(), "max-width: 400px;");
    assert_eq!(ModalSize::Medium.max_width_style(), "max-width: 600px;");
    assert_eq!(ModalSize::Large.max_width_style(), "max-width: 800px;");
    assert_eq!(ModalSize::Full.max_width_style(), "max-width: 95%;");
}

#[test]
fn bulk_selection_toggles_only_when_enabled() {
    let mut sel = BulkSelection::new();
    assert!(!sel.is_enabled());
    sel.toggle(5);
    assert!(!sel.is_selected(5));
    assert_eq!(sel.count(), None);
    sel.enable();
    sel.toggle(5);
    sel.toggle(6);
    assert!(sel.is_selected(5) && sel.is_selected(6));
    assert_eq!(sel.count(), Some(2));
    sel.toggle(5);
    assert!(!sel.is_selected(5));
    assert_eq!(sel.count(), Some(1));
    sel.clear();
    assert_eq!(sel.count(), Some(0));
    sel.disable();
    assert!(!sel.is_enabled());
}

#[test]
fn invert_selection_picks_the_other_shown_media() {
    let mut sel = BulkSelection::new();
    sel.enable();
    sel.toggle(1);
    sel.toggle(3);
    let shown: HashSet<u64> = [1, 2, 3, 4].into_iter().collect();
    sel.invert(&shown);
    assert!(!sel.is_selected(1) && sel.is_selected(2) && !sel.is_selected(3) && sel.is_selected(4));
    assert_eq!(sel.count(), Some(2));
    sel.invert(&shown);
    assert!(sel.is_selected(1) && sel.is_selected(3));
    assert_eq!(sel.count(), Some(2));
    let mut off = BulkSelection::new();
    off.invert(&shown);
    assert!(!off.is_enabled());
}

#[test]
fn zoom_steps_between_half_and_three_times() {
    let mut z = Zoom::new();
    assert_eq!(z.percent(), 100);
    assert_eq!(z.label(), "100%");
    for _ in 0..20 {
        z.zoom_in();
    }
    assert_eq!(z.percent(), 300);
    assert!(z.is_magnified());
    assert_eq!(z.image_class(false), "fullsize-image zoomed");
    assert_eq!(z.image_class(true), "fullsize-image panning");
    let mut resets = 0;
    for _ in 0..20 {
        if z.zoom_out() {
            resets += 1;
        }
    }
    assert_eq!(z.percent(), 50);
    assert_eq!(z.label(), "50%");
    // 100%, 75% and 50% are reached going down
    assert_eq!(resets, 3);
    assert_eq!(z.image_class(false), "fullsize-image");
    z.reset();
    assert_eq!(z.percent(), 100);
}

#[test]
fn zoom_in_then_out_returns() {
    let mut z = Zoom::new();
    z.zoom_in();
    assert_eq!(z.percent(), 125);
    // back at 100%: the offset is reset
    assert!(z.zoom_out());
    assert_eq!(z.percent(), 100);
    z.zoom_in();
    z.zoom_in();
    // from 150% to 125%: still magnified, the offset stays
    assert!(!z.zoom_out());
    assert_eq!(z.percent(), 125);
}

#[test]
fn new_album_needs_name_and_group() {
    let c = check_new_album("  ", "\t");
    assert_eq!(c.name_error, Some("Album name is required"));
    assert_eq!(c.group_error, Some("Group ID is required"));
    assert!(!c.is_valid());
    let c = check_new_album("Summer", "");
    assert_eq!(c.name_error, None);
    assert_eq!(c.group_error, Some("Group ID is required"));
    let c = check_new_album(" Summer ", "users");
    assert!(c.is_valid());
}

#[test]
fn album_edit_needs_a_name_only() {
    assert_eq!(check_album_edit("").name_error, Some("Album name is required"));
    assert!(check_album_edit("x").is_valid());
    assert_eq!(check_album_edit("x").group_error, None);
}

#[test]
fn group_members_panel() {
    assert!(!should_lookup_group("   "));
    assert!(should_lookup_group(" users"));
    assert_eq!(members_panel(true, "users"), MembersPanel::Members);
    assert_eq!(members_panel(false, "users"), MembersPanel::NoMembers);
    assert_eq!(members_panel(false, " "), MembersPanel::NoMembers);
    assert_eq!(members_panel(false, ""), MembersPanel::Nothing);
}

#[test]
fn bulk_actions_open_their_dialogs() {
    assert_eq!(BulkEditMode::EditTags.label(), "Edit Tags");
    assert_eq!(BulkEditMode::AddToCollection.label(), "Add to Collection");
    let picked: HashSet<u64> = [1, 2].into_iter().collect();
    assert_eq!(
        BulkEditMode::EditTags.dialog(picked.clone()),
        Modal::BulkEditTagsModal(picked.clone())
    );
    assert_eq!(
        BulkEditMode::AddToCollection.dialog(HashSet::new()),
        Modal::BulkAddToCollection(HashSet::new())
    );
}

#[test]
fn picked_set_copies_the_picks() {
    let mut sel = BulkSelection::new();
    assert_eq!(sel.picked_set(), None);
    sel.enable();
    sel.toggle(4);
    sel.toggle(9);
    sel.toggle(4);
    let expected: HashSet<u64> = [9].into_iter().collect();
    assert_eq!(sel.picked_set(), Some(expected));
}

#[test]
fn dialogs_copy_with_their_picks() {
    let picked: HashSet<u64> = [3, 5, 8].into_iter().collect();
    let m = Modal::BulkEditTagsModal(picked.clone());
    assert_eq!(m.clone(), Modal::BulkEditTagsModal(picked));
    assert_eq!(Modal::RmMediaFromAlbum(4, 2).clone(), Modal::RmMediaFromAlbum(4, 2));
    assert_eq!(Modal::CreateAlbum.clone(), Modal::CreateAlbum);
    let mut stack = ModalStack::new();
    stack.open(Modal::AddMediaToAnyAlbum(6));
    stack.open(Modal::EditAlbum(1));
    stack.replace_top(Modal::DeleteAlbum(1));
    assert_eq!(stack.close(), Some(Modal::DeleteAlbum(1)));
    assert_eq!(stack.top(), Some(&Modal::AddMediaToAnyAlbum(6)));
}

#[test]
fn picked_ids_lists_each_pick_once() {
    let mut sel = BulkSelection::new();
    assert_eq!(sel.picked_ids(), None);
    sel.enable();
    sel.toggle(4);
    sel.toggle(9);
    let mut ids = sel.picked_ids().unwrap();
    ids.sort();
    assert_eq!(ids, vec![4, 9]);
}

#[test]
fn sidebar_opens_on_the_right_by_default() {
    assert_eq!(SidebarSide::default(), SidebarSide::Right);
}

#[test]
fn presentation_classes() {
    assert_eq!(tab_button_class("Search", "Search"), "tab-button active");
    assert_eq!(tab_button_class("Search", "Colors"), "tab-button");
    assert_eq!(tab_button_accent("Search", "Colors"), "");
    assert_eq!(
        tab_button_accent("Colors", "Colors"),
        "color: var(--primary); border-bottom-color: var(--primary);"
    );
    assert_eq!(option_class(true), "task-option selected");
    assert_eq!(option_class(false), "task-option");
    assert_eq!(album_item_class(true), "album-item selected");
    assert_eq!(album_description(""), "No description");
    assert_eq!(album_description("Family"), "Family");
    let mut sel = BulkSelection::new();
    assert_eq!(card_style(&sel, 1), "position: relative;");
    sel.enable();
    sel.toggle(1);
    assert_eq!(
        card_style(&sel, 1),
        "position: relative; border: 3px solid var(--primary); transform: scale(0.98);"
    );
    assert_eq!(card_style(&sel, 2), "position: relative;");
}

#[test]
fn adding_to_an_album_needs_a_pick() {
    assert_eq!(entanglement_webapp::forms::album_to_add(Some(3)), Ok(3));
    assert_eq!(
        entanglement_webapp::forms::album_to_add(None),
        Err("Please select an album first")
    );
}
