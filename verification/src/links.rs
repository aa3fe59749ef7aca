use vstd::prelude::*;

use crate::text::{concat, decimal, decimal_text};

verus! {

/// The server's path segment of original media files.
pub const ORIGINAL_PATH: &'static str = "full";

/// The server's path segment of thumbnails.
pub const THUMBNAIL_PATH: &'static str = "thumbnails";

/// The prefix of every key that the application keeps in local storage.
pub const STORAGE_PREFIX: &'static str = "entanglement_";

/// The address of a medium's original file.
pub fn full_link(media_uuid: u64) -> (s: String)
    ensures
        s@ == "/entanglement/media/"@ + ORIGINAL_PATH@ + "/"@ + decimal(media_uuid as nat),
{
    let d = decimal_text(media_uuid);
    let head = concat("/entanglement/media/", ORIGINAL_PATH);
    let head = concat(head.as_str(), "/");
    concat(head.as_str(), d.as_str())
}

/// The address of a medium's thumbnail.
pub fn thumbnail_link(media_uuid: u64) -> (s: String)
    ensures
        s@ == "/entanglement/media/"@ + THUMBNAIL_PATH@ + "/"@ + decimal(media_uuid as nat),
{
    let d = decimal_text(media_uuid);
    let head = concat("/entanglement/media/", THUMBNAIL_PATH);
    let head = concat(head.as_str(), "/");
    concat(head.as_str(), d.as_str())
}

/// The local-storage key under which a setting is kept.
pub fn storage_key(key: &str) -> (s: String)
    ensures
        s@ == STORAGE_PREFIX@ + key@,
{
    concat(STORAGE_PREFIX, key)
}

/// Different settings are kept under different keys.
pub proof fn lemma_storage_keys_distinct(a: Seq<char>, b: Seq<char>)
    requires
        a != b,
    ensures
        STORAGE_PREFIX@ + a != STORAGE_PREFIX@ + b,
{
    let p = STORAGE_PREFIX@;
    if p + a == p + b {
        assert(a =~= (p + a).skip(p.len() as int));
        assert(b =~= (p + b).skip(p.len() as int));
    }
}

} // verus!
