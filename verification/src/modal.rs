use std::collections::HashSet;

use vstd::prelude::*;

use crate::selection::copy_of;

verus! {

/// The modal dialogs that the application can show, with what each needs to
/// show the right content.  Identifiers are the server's numeric ids.
#[derive(Debug, PartialEq)]
pub enum Modal {
    EnhancedImageView(u64),
    DeleteComment(u64, u64),
    CreateCollection,
    EditCollection(u64),
    DeleteCollection(u64),
    AddMediaToCollection(u64),
    RmMediaFromCollection(u64, u64),
    BulkAddToCollection(HashSet<u64>),
    BulkEditTagsModal(HashSet<u64>),
    StartTask(u64),
    StopTask(u64),
    CreateAlbum,
    EditAlbum(u64),
    DeleteAlbum(u64),
    AddMediaToAnyAlbum(u64),
    RmMediaFromAlbum(u64, u64),
}

/// Whether `b` is a copy of `a`: the same dialog about the same media, a
/// set of picked media with the same members standing for the set.
pub open spec fn same_dialog(a: Modal, b: Modal) -> bool {
    match (a, b) {
        (Modal::BulkAddToCollection(x), Modal::BulkAddToCollection(y)) => x@ == y@,
        (Modal::BulkEditTagsModal(x), Modal::BulkEditTagsModal(y)) => x@ == y@,
        _ => a == b,
    }
}

impl Clone for Modal {
    fn clone(&self) -> (r: Self)
        ensures
            same_dialog(*self, r),
    {
        match self {
            Modal::EnhancedImageView(m) => Modal::EnhancedImageView(*m),
            Modal::DeleteComment(c, m) => Modal::DeleteComment(*c, *m),
            Modal::CreateCollection => Modal::CreateCollection,
            Modal::EditCollection(c) => Modal::EditCollection(*c),
            Modal::DeleteCollection(c) => Modal::DeleteCollection(*c),
            Modal::AddMediaToCollection(m) => Modal::AddMediaToCollection(*m),
            Modal::RmMediaFromCollection(m, c) => Modal::RmMediaFromCollection(*m, *c),
            Modal::BulkAddToCollection(s) => Modal::BulkAddToCollection(copy_of(s)),
            Modal::BulkEditTagsModal(s) => Modal::BulkEditTagsModal(copy_of(s)),
            Modal::StartTask(l) => Modal::StartTask(*l),
            Modal::StopTask(l) => Modal::StopTask(*l),
            Modal::CreateAlbum => Modal::CreateAlbum,
            Modal::EditAlbum(a) => Modal::EditAlbum(*a),
            Modal::DeleteAlbum(a) => Modal::DeleteAlbum(*a),
            Modal::AddMediaToAnyAlbum(m) => Modal::AddMediaToAnyAlbum(*m),
            Modal::RmMediaFromAlbum(m, a) => Modal::RmMediaFromAlbum(*m, *a),
        }
    }
}

/// The stack of open modal dialogs; the one on top is the one shown.
pub struct ModalStack {
    stack: Vec<Modal>,
}

impl View for ModalStack {
    type V = Seq<Modal>;

    closed spec fn view(&self) -> Seq<Modal> {
        self.stack@
    }
}

/// The stack after closing the shown dialog: the top is removed, and closing
/// with nothing shown changes nothing.
pub open spec fn closed(s: Seq<Modal>) -> Seq<Modal> {
    if s.len() == 0 {
        s
    } else {
        s.drop_last()
    }
}

impl ModalStack {
    /// No dialog open.
    pub fn new() -> (r: Self)
        ensures
            r@ == Seq::<Modal>::empty(),
    {
        ModalStack { stack: Vec::new() }
    }

    /// Opens a dialog on top of the others.
    pub fn open(&mut self, m: Modal)
        ensures
            final(self)@ == old(self)@.push(m),
    {
        self.stack.push(m);
    }

    /// Closes the dialog on top, if any, and hands it back.
    pub fn close(&mut self) -> (r: Option<Modal>)
        ensures
            final(self)@ == closed(old(self)@),
            old(self)@.len() == 0 ==> r is None,
            old(self)@.len() > 0 ==> r == Some(old(self)@.last()),
    {
        self.stack.pop()
    }

    /// Replaces the dialog on top by another one (or opens it when none is
    /// shown).
    pub fn replace_top(&mut self, m: Modal)
        ensures
            final(self)@ == closed(old(self)@).push(m),
    {
        self.stack.pop();
        self.stack.push(m);
    }

    /// The dialog that is shown, if any.
    pub fn top(&self) -> (r: Option<&Modal>)
        ensures
            self@.len() == 0 ==> r is None,
            self@.len() > 0 ==> r == Some(&self@.last()),
    {
        if self.stack.len() == 0 {
            None
        } else {
            Some(&self.stack[self.stack.len() - 1])
        }
    }

    /// How many dialogs are open.
    pub fn depth(&self) -> (n: usize)
        ensures
            n == self@.len(),
    {
        self.stack.len()
    }
}

/// Opening a dialog and closing it again gives back the dialogs that were
/// open before, and the dialog shown right after opening is the one opened.
pub proof fn lemma_open_then_close(s: Seq<Modal>, m: Modal)
    ensures
        closed(s.push(m)) == s,
        s.push(m).last() == m,
{
    assert(s.push(m).drop_last() =~= s);
}

/// Closing leaves every dialog below the top where it was.
pub proof fn lemma_close_keeps_the_rest(s: Seq<Modal>)
    ensures
        closed(s).len() == if s.len() == 0 { 0 } else { s.len() - 1 },
        forall|i: int| 0 <= i < closed(s).len() ==> closed(s)[i] == s[i],
{
}

/// The sizes a modal dialog can take.
#[derive(Clone, Copy, Debug, PartialEq, Eq, Structural)]
pub enum ModalSize {
    Small,
    Medium,
    Large,
    Full,
}

impl Default for ModalSize {
    fn default() -> (r: Self)
        ensures
            r == ModalSize::Medium,
    {
        ModalSize::Medium
    }
}

/// The CSS that bounds a dialog's width for a size.
pub open spec fn max_width_of(size: ModalSize) -> Seq<char> {
    match size {
        ModalSize::Small => "max-width: 400px;"@,
        ModalSize::Medium => "max-width: 600px;"@,
        ModalSize::Large => "max-width: 800px;"@,
        ModalSize::Full => "max-width: 95%;"@,
    }
}

impl ModalSize {
    /// The CSS that bounds a dialog's width.
    pub fn max_width_style(self) -> (s: &'static str)
        ensures
            s@ == max_width_of(self),
    {
        match self {
            ModalSize::Small => "max-width: 400px;",
            ModalSize::Medium => "max-width: 600px;",
            ModalSize::Large => "max-width: 800px;",
            ModalSize::Full => "max-width: 95%;",
        }
    }
}


/// The side panels that the application can show.
#[derive(Clone, Copy, Debug, PartialEq, Eq, Structural)]
pub enum Sidebar {
    Advanced,
}

/// The side of the window a side panel opens on; the right by default.
#[derive(Clone, Copy, Debug, PartialEq, Eq, Structural)]
pub enum SidebarSide {
    Right,
    Left,
}

impl Default for SidebarSide {
    fn default() -> (r: Self)
        ensures
            r == SidebarSide::Right,
    {
        SidebarSide::Right
    }
}

/// The bulk actions offered in the bulk edit tab.
#[derive(Clone, Copy, Debug, PartialEq, Eq, Structural)]
pub enum BulkEditMode {
    EditTags,
    AddToCollection,
}

impl BulkEditMode {
    /// The text of the action's button.
    pub fn label(self) -> (s: &'static str)
        ensures
            self == BulkEditMode::EditTags ==> s@ == "Edit Tags"@,
            self == BulkEditMode::AddToCollection ==> s@ == "Add to Collection"@,
    {
        match self {
            BulkEditMode::EditTags => "Edit Tags",
            BulkEditMode::AddToCollection => "Add to Collection",
        }
    }

    /// The dialog that the action's button opens for the picked media.
    pub fn dialog(self, picked: HashSet<u64>) -> (m: Modal)
        ensures
            self == BulkEditMode::EditTags ==> m == Modal::BulkEditTagsModal(picked),
            self == BulkEditMode::AddToCollection ==> m == Modal::BulkAddToCollection(picked),
    {
        match self {
            BulkEditMode::EditTags => Modal::BulkEditTagsModal(picked),
            BulkEditMode::AddToCollection => Modal::BulkAddToCollection(picked),
        }
    }
}

} // verus!
