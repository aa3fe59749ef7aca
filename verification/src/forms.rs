use vstd::prelude::*;

use crate::text::{is_blank, is_blank_text};

verus! {

/// What is wrong with an album form, field by field.
#[derive(Clone, Copy, Debug, PartialEq, Eq)]
pub struct AlbumFormCheck {
    /// The message under the name field, if any.
    pub name_error: Option<&'static str>,
    /// The message under the group field, if any.
    pub group_error: Option<&'static str>,
}

/// The message shown when an album has no name.
pub open spec fn name_required() -> Seq<char> {
    "Album name is required"@
}

/// The message shown when an album has no group.
pub open spec fn group_required() -> Seq<char> {
    "Group ID is required"@
}

impl AlbumFormCheck {
    /// Whether the form may be sent.
    pub open spec fn valid(self) -> bool {
        self.name_error is None && self.group_error is None
    }

    /// Whether the form may be sent.
    pub fn is_valid(&self) -> (r: bool)
        ensures
            r == self.valid(),
    {
        self.name_error.is_none() && self.group_error.is_none()
    }
}

/// Checks the "Create New Album" form: a name and a group are required, and
/// a field that is blank once trimmed counts as missing.  Both fields are
/// checked, so both messages can show at once.
pub fn check_new_album(name: &str, group: &str) -> (r: AlbumFormCheck)
    ensures
        r.name_error is Some <==> is_blank(name@),
        r.name_error matches Some(m) ==> m@ == name_required(),
        r.group_error is Some <==> is_blank(group@),
        r.group_error matches Some(m) ==> m@ == group_required(),
{
    let name_error = if is_blank_text(name) {
        Some("Album name is required")
    } else {
        None
    };
    let group_error = if is_blank_text(group) {
        Some("Group ID is required")
    } else {
        None
    };
    AlbumFormCheck { name_error, group_error }
}

/// Checks the "Edit Album" form: only the name is required.
pub fn check_album_edit(name: &str) -> (r: AlbumFormCheck)
    ensures
        r.name_error is Some <==> is_blank(name@),
        r.name_error matches Some(m) ==> m@ == name_required(),
        r.group_error is None,
{
    let name_error = if is_blank_text(name) {
        Some("Album name is required")
    } else {
        None
    };
    AlbumFormCheck { name_error, group_error: None }
}

/// Whether the members of a group are looked up while the group field is
/// typed in: not while it is blank.
pub fn should_lookup_group(group: &str) -> (r: bool)
    ensures
        r == !is_blank(group@),
{
    !is_blank_text(group)
}

/// What the group-members panel of the album form shows.
#[derive(Clone, Copy, Debug, PartialEq, Eq, Structural)]
pub enum MembersPanel {
    /// The members of the group.
    Members,
    /// "No members found in this group".
    NoMembers,
    /// Nothing.
    Nothing,
}

/// The group-members panel: the members when the lookup found some;
/// otherwise a notice, unless the group field is empty (not trimmed).
pub fn members_panel(found_members: bool, group: &str) -> (p: MembersPanel)
    ensures
        found_members ==> p == MembersPanel::Members,
        !found_members && group@.len() > 0 ==> p == MembersPanel::NoMembers,
        !found_members && group@.len() == 0 ==> p == MembersPanel::Nothing,
{
    if found_members {
        MembersPanel::Members
    } else if group.is_empty() {
        MembersPanel::Nothing
    } else {
        MembersPanel::NoMembers
    }
}


/// The album that "Add to Album" adds the medium to: the picked one, or the
/// message asking to pick one first.
pub fn album_to_add(picked: Option<u64>) -> (r: Result<u64, &'static str>)
    ensures
        picked matches Some(a) ==> r == Ok::<u64, &'static str>(a),
        picked is None ==> (r matches Err(m) && m@ == "Please select an album first"@),
{
    match picked {
        Some(a) => Ok(a),
        None => Err("Please select an album first"),
    }
}

} // verus!
