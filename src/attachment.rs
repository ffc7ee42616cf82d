use vstd::prelude::*;

use crate::query::{contains_key, is_deleted, views_of};
use crate::text::{has_prefix, str_eq};

verus! {

/// A row of the attachment table.
#[derive(Debug)]
pub struct ItemAttachment {
    /// The attachment's own item id.
    pub id: Option<i32>,
    /// The id of the item that the attachment belongs to.
    pub parent_item_id: Option<i32>,
    /// The MIME type of the attached file.
    pub content_type: Option<String>,
    /// The file's path, relative to the attachment's storage folder where it
    /// starts with `storage:`.
    pub path: Option<String>,
}

/// The prefix of a path inside the attachment's own storage folder.
pub open spec fn storage_prefix() -> Seq<char> {
    "storage:"@
}

/// A stored path without its `storage:` prefix.
pub open spec fn stored_path(path: Seq<char>) -> Seq<char> {
    if storage_prefix().is_prefix_of(path) {
        path.skip(storage_prefix().len() as int)
    } else {
        path
    }
}

/// The absolute path of a file attached as `path` by the attachment in `key`:
/// `<root>/<key>/<path without storage:>`.
pub open spec fn attachment_path(root: Seq<char>, key: Seq<char>, path: Seq<char>) -> Seq<char> {
    root + "/"@ + key + "/"@ + stored_path(path)
}

/// The absolute path of a file attached as `path` by the attachment in `key`,
/// under the storage folder `root`.
pub fn full_attachment_path(root: &str, key: &str, path: &str) -> (r: String)
    ensures
        r@ == attachment_path(root@, key@, path@),
{
    proof {
        reveal_strlit("storage:");
    }
    let mut r = String::from_str(root);
    r.append("/");
    r.append(key);
    r.append("/");
    if has_prefix(path, "storage:") {
        let n = path.unicode_len();
        r.append(path.substring_char(8, n));
    } else {
        r.append(path);
    }
    r
}

/// Whether an attachment's content type is one that is listed: a PDF or a
/// note.
pub open spec fn listed_content_type(content_type: Option<String>) -> bool {
    match content_type {
        Some(t) => t@ == "application/pdf"@ || t@ == "application/x-note"@,
        None => false,
    }
}

/// Whether the attachment in `key` is listed for the item `parent_id`: it
/// belongs to that item, has a path and a listed type, and is not
/// soft-deleted.
pub open spec fn attachment_selected(
    key: Seq<char>,
    a: ItemAttachment,
    parent_id: i32,
    deleted: Seq<String>,
) -> bool {
    &&& a.parent_item_id == Some(parent_id)
    &&& a.path is Some
    &&& listed_content_type(a.content_type)
    &&& !is_deleted(deleted, key)
}

/// The key and stored path of each attachment listed for `parent_id`, in row
/// order; each row is an attachment with its own key.
pub open spec fn attachment_hits(
    rows: Seq<(String, ItemAttachment)>,
    parent_id: i32,
    deleted: Seq<String>,
) -> Seq<(Seq<char>, Seq<char>)>
    decreases rows.len(),
{
    if rows.len() == 0 {
        Seq::empty()
    } else {
        let rest = attachment_hits(rows.drop_last(), parent_id, deleted);
        let (key, a) = rows.last();
        if attachment_selected(key@, a, parent_id, deleted) {
            rest.push((key@, a.path->Some_0@))
        } else {
            rest
        }
    }
}

/// The absolute path of each `(key, stored path)` pair under `root`.
pub open spec fn paths_under(root: Seq<char>, hits: Seq<(Seq<char>, Seq<char>)>) -> Seq<Seq<char>>
    decreases hits.len(),
{
    if hits.len() == 0 {
        Seq::empty()
    } else {
        paths_under(root, hits.drop_last()).push(attachment_path(root, hits.last().0, hits.last().1))
    }
}

/// The absolute paths of the attachments listed for `parent_id`.
pub open spec fn attachment_paths(
    root: Seq<char>,
    rows: Seq<(String, ItemAttachment)>,
    parent_id: i32,
    deleted: Seq<String>,
) -> Seq<Seq<char>> {
    paths_under(root, attachment_hits(rows, parent_id, deleted))
}

/// Whether a content type is that of a PDF or a note.
fn is_listed_type(content_type: &Option<String>) -> (r: bool)
    ensures
        r == listed_content_type(*content_type),
{
    match content_type {
        Some(t) => str_eq(t.as_str(), "application/pdf") || str_eq(t.as_str(), "application/x-note"),
        None => false,
    }
}

/// The absolute paths, under the storage folder `root`, of the PDF and note
/// files attached to the item `parent_id`; each row is an attachment with its
/// own key, which names its storage folder.
pub fn select_attachment_paths(
    root: &str,
    parent_id: i32,
    rows: &Vec<(String, ItemAttachment)>,
    deleted: &Vec<String>,
) -> (r: Vec<String>)
    ensures
        views_of(r@) == attachment_paths(root@, rows@, parent_id, deleted@),
{
    let mut r: Vec<String> = Vec::new();
    let mut i: usize = 0;
    while i < rows.len()
        invariant
            i <= rows@.len(),
            views_of(r@) == attachment_paths(root@, rows@.take(i as int), parent_id, deleted@),
        decreases rows@.len() - i,
    {
        assert(rows@.take(i + 1).drop_last() =~= rows@.take(i as int));
        let ghost before = r@;
        let key = &rows[i].0;
        let a = &rows[i].1;
        if a.parent_item_id == Some(parent_id) && is_listed_type(&a.content_type) && !contains_key(
            deleted,
            key.as_str(),
        ) {
            match &a.path {
                Some(p) => {
                    let ghost hits = attachment_hits(rows@.take(i as int), parent_id, deleted@);
                    let ghost hit = (key@, p@);
                    assert(hits.push(hit).drop_last() =~= hits);
                    r.push(full_attachment_path(root, key.as_str(), p.as_str()));
                    assert(views_of(r@) =~= views_of(before).push(attachment_path(root@, key@, p@)));
                },
                None => {},
            }
        }
        assert(views_of(r@) =~= attachment_paths(root@, rows@.take(i + 1), parent_id, deleted@));
        i = i + 1;
    }
    assert(rows@.take(rows@.len() as int) =~= rows@);
    r
}

/// No soft-deleted attachment is listed.
pub proof fn lemma_attachments_skip_deleted(
    rows: Seq<(String, ItemAttachment)>,
    parent_id: i32,
    deleted: Seq<String>,
)
    ensures
        forall|i: int|
            0 <= i < attachment_hits(rows, parent_id, deleted).len() ==> !is_deleted(
                deleted,
                #[trigger] attachment_hits(rows, parent_id, deleted)[i].0,
            ),
    decreases rows.len(),
{
    if rows.len() > 0 {
        let rest = attachment_hits(rows.drop_last(), parent_id, deleted);
        lemma_attachments_skip_deleted(rows.drop_last(), parent_id, deleted);
        assert forall|i: int| 0 <= i < attachment_hits(rows, parent_id, deleted).len() implies !is_deleted(
            deleted,
            #[trigger] attachment_hits(rows, parent_id, deleted)[i].0,
        ) by {
            if i < rest.len() {
                assert(attachment_hits(rows, parent_id, deleted)[i] == rest[i]);
            }
        }
    }
}

} // verus!
