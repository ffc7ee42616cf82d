use vstd::prelude::*;

use crate::error::Error;
use crate::text::{after_last, after_last_exec, contains_str, has_prefix, occurs_in};

verus! {

/// The deep link of an attachment-kind item, without its key.
pub open spec fn attachment_link_prefix() -> Seq<char> {
    "zotero://select/items/0_"@
}

/// The deep link of a note-kind item, without its key.
pub open spec fn note_link_prefix() -> Seq<char> {
    "zotero://select/items/1_"@
}

/// The key that a deep link selects: what follows either prefix, or nothing
/// where the link has neither.
pub open spec fn decoded_key(link: Seq<char>) -> Option<Seq<char>> {
    if note_link_prefix().is_prefix_of(link) {
        Some(link.skip(note_link_prefix().len() as int))
    } else if attachment_link_prefix().is_prefix_of(link) {
        Some(link.skip(attachment_link_prefix().len() as int))
    } else {
        None
    }
}

/// The note-kind deep link of `key`.
pub open spec fn note_link(key: Seq<char>) -> Seq<char> {
    note_link_prefix() + key
}

/// Extract the item key from a link in the zotero protocol, e.g.
/// `zotero://select/items/1_NIUYMGLJ`.
pub fn get_item_key_from_link(link: &str) -> (r: Result<String, Error>)
    ensures
        decoded_key(link@) is Some <==> r is Ok,
        r is Ok ==> r->Ok_0@ == decoded_key(link@)->Some_0,
        r is Err ==> r->Err_0 is Format,
{
    let attachment_prefix = "zotero://select/items/0_";
    let note_prefix = "zotero://select/items/1_";
    proof {
        reveal_strlit("zotero://select/items/0_");
        reveal_strlit("zotero://select/items/1_");
    }
    if has_prefix(link, note_prefix) || has_prefix(link, attachment_prefix) {
        let n = link.unicode_len();
        Ok(String::from_str(link.substring_char(24, n)))
    } else {
        Err(Error::Format(String::from_str(link)))
    }
}

/// The note-kind link in the zotero protocol that selects `key`.
pub fn item_link_of(key: &str) -> (r: String)
    ensures
        r@ == note_link(key@),
{
    let link = String::from_str("zotero://select/items/1_");
    link.concat(key)
}

/// Decoding the note-kind link of a key gives the key back.
pub proof fn lemma_note_link_round_trip(key: Seq<char>)
    ensures
        decoded_key(note_link(key)) == Some(key),
{
    reveal_strlit("zotero://select/items/1_");
    assert(note_link_prefix().is_prefix_of(note_link(key)));
    assert(note_link(key).skip(note_link_prefix().len() as int) =~= key);
}

/// The host that object URLs of item relations name.
pub open spec fn object_url_host() -> Seq<char> {
    "http://zotero.org"@
}

/// The path segment that comes before an item key in an object URL.
pub open spec fn items_segment() -> Seq<char> {
    "/items/"@
}

/// The item key that an object URL of a relation ends in, e.g.
/// `http://zotero.org/users/15074/items/M2S2HTNN`: what follows the last
/// `/items/`, for a URL on the expected host that has such a segment.
#[verifier::opaque]
pub open spec fn object_url_key(url: Seq<char>) -> Option<Seq<char>> {
    if object_url_host().is_prefix_of(url) && occurs_in(url, items_segment()) {
        Some(after_last(url, items_segment()))
    } else {
        None
    }
}

/// Extract the item key from the object URL of an item relation.
pub fn parse_zotero_key_from_object_url(url: &str) -> (r: Option<String>)
    ensures
        r is Some <==> object_url_key(url@) is Some,
        r is Some ==> r->Some_0@ == object_url_key(url@)->Some_0,
{
    proof {
        reveal_strlit("/items/");
        reveal(object_url_key);
    }
    if has_prefix(url, "http://zotero.org") && contains_str(url, "/items/") {
        Some(after_last_exec(url, "/items/"))
    } else {
        None
    }
}

} // verus!
