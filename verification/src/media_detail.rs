use vstd::prelude::*;

use crate::text::{concat, decimal, decimal_text, views};

verus! {

/// The fields of a medium as the media details dialog shows them.
pub struct MediaFields {
    pub hidden: bool,
    pub date: String,
    pub note: String,
}

/// The update that "Save Changes" sends for a medium: each field that is
/// `Some` is replaced on the server.
pub struct MediaUpdatePlan {
    pub hidden: Option<bool>,
    pub date: Option<String>,
    pub note: Option<String>,
}

/// What "Save Changes" sends: the shown hidden flag and date, and the shown
/// date once more in place of the note, as the dialog has always done.
pub fn detail_save_update(shown: &MediaFields) -> (u: MediaUpdatePlan)
    ensures
        u.hidden == Some(shown.hidden),
        u.date matches Some(d) && d@ == shown.date@,
        u.note matches Some(n) && n@ == shown.date@,
{
    MediaUpdatePlan {
        hidden: Some(shown.hidden),
        date: Some(shown.date.clone()),
        note: Some(shown.date.clone()),
    }
}

/// The kind of a medium, as far as its preview goes.
#[derive(Clone, Copy, Debug, PartialEq, Eq, Structural)]
pub enum MediaKind {
    Image,
    Video,
    /// Any other kind the server knows.
    Other,
}

/// How a medium is previewed in the details dialog.
#[derive(Clone, Copy, Debug, PartialEq, Eq, Structural)]
pub enum Preview {
    /// The full-size picture, with the note as its alternative text.
    FullImage,
    /// A video player with controls.
    VideoPlayer,
    /// The text "Unsupported media type".
    Unsupported,
}

pub fn preview_for(kind: MediaKind) -> (p: Preview)
    ensures
        kind == MediaKind::Image ==> p == Preview::FullImage,
        kind == MediaKind::Video ==> p == Preview::VideoPlayer,
        kind == MediaKind::Other ==> p == Preview::Unsupported,
{
    match kind {
        MediaKind::Image => Preview::FullImage,
        MediaKind::Video => Preview::VideoPlayer,
        MediaKind::Other => Preview::Unsupported,
    }
}

/// The text shown in place of a preview for other kinds of media.
pub fn unsupported_text() -> (s: &'static str)
    ensures
        s@ == "Unsupported media type"@,
{
    "Unsupported media type"
}

/// The lines of the "In Albums" section for a medium in the given albums.
pub open spec fn album_lines_text(albums: Seq<u64>) -> Seq<Seq<char>> {
    if albums.len() == 0 {
        seq!["Not in any albums"@]
    } else {
        albums.map_values(|a: u64| "Album #"@ + decimal(a as nat))
    }
}

/// The "In Albums" section: "Not in any albums", or "Album #{id}" for each
/// album the medium is in, in order.
pub fn album_lines(albums: &Vec<u64>) -> (r: Vec<String>)
    ensures
        views(r@) == album_lines_text(albums@),
{
    let mut out: Vec<String> = Vec::new();
    if albums.len() == 0 {
        out.push("Not in any albums".to_owned());
        assert(views(out@) =~= album_lines_text(albums@));
        return out;
    }
    let mut i: usize = 0;
    while i < albums.len()
        invariant
            i <= albums.len(),
            albums@.len() > 0,
            views(out@) == albums@.take(i as int).map_values(|a: u64| "Album #"@ + decimal(a as nat)),
        decreases albums.len() - i,
    {
        let d = decimal_text(albums[i]);
        let line = concat("Album #", d.as_str());
        let ghost before = out@;
        out.push(line);
        assert(views(out@) =~= views(before).push(line@));
        assert(albums@.take(i + 1) =~= albums@.take(i as int).push(albums@[i as int]));
        i = i + 1;
        assert(views(out@) =~= albums@.take(i as int).map_values(
            |a: u64| "Album #"@ + decimal(a as nat),
        ));
    }
    assert(albums@.take(albums.len() as int) =~= albums@);
    out
}

/// The message shown when the medium could not be loaded.
pub fn load_error_text(err: &str) -> (s: String)
    ensures
        s@ == "Failed to load media: "@ + err@,
{
    concat("Failed to load media: ", err)
}

} // verus!
