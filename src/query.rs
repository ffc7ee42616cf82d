use vstd::prelude::*;

use crate::link::{object_url_key, parse_zotero_key_from_object_url};
use crate::text::{contains_str, occurs_in, str_eq};

verus! {

/// The predicate of an item relation that marks two items as related.
pub const RELATED_PREDICATE: i64 = 2;

/// The item type of attachments.
pub const ATTACHMENT_ITEM_TYPE: i64 = 14;

/// The lowercase form of a string, as `str::to_lowercase` gives it.
pub uninterp spec fn lower_of(s: Seq<char>) -> Seq<char>;

/// Relies on `str::to_lowercase`, whose result depends on the characters of
/// `s` alone.
#[verifier::external_body]
fn to_lower(s: &str) -> (r: String)
    ensures
        r@ == lower_of(s@),
{
    s.to_lowercase()
}

/// An item together with one name that it is filed under: the name of one of
/// its tags, or of a collection that holds it.
#[derive(Debug)]
pub struct NamedRow {
    /// The item's key.
    pub key: String,
    /// The tag or collection name.
    pub name: String,
}

/// An item relation, with the key and item type of its subject.
#[derive(Debug)]
pub struct RelationRow {
    /// The key of the subject item.
    pub key: String,
    /// The item type of the subject item.
    pub item_type_id: i64,
    /// The relation's predicate.
    pub predicate_id: i64,
    /// The object: a URL that ends in the related item's key.
    pub object: String,
}

/// The views of a list of strings.
pub open spec fn views_of(v: Seq<String>) -> Seq<Seq<char>> {
    v.map_values(|s: String| s@)
}

/// Whether `key` is among the keys of soft-deleted items.
pub open spec fn is_deleted(deleted: Seq<String>, key: Seq<char>) -> bool {
    exists|i: int| 0 <= i < deleted.len() && deleted[i]@ == key
}

/// Whether `key` is among the keys of soft-deleted items.
pub fn contains_key(deleted: &Vec<String>, key: &str) -> (r: bool)
    ensures
        r == is_deleted(deleted@, key@),
{
    let mut i: usize = 0;
    while i < deleted.len()
        invariant
            i <= deleted@.len(),
            forall|j: int| 0 <= j < i ==> deleted@[j]@ != key@,
        decreases deleted@.len() - i,
    {
        if str_eq(deleted[i].as_str(), key) {
            return true;
        }
        i = i + 1;
    }
    false
}

/// Whether a name matches a search term once both are in lowercase: the term
/// occurs in the name.
pub open spec fn name_matches(name: Seq<char>, term: Seq<char>) -> bool {
    occurs_in(lower_of(name), lower_of(term))
}

/// The keys of the rows whose name matches `term` and whose item is not
/// soft-deleted, in row order.
pub open spec fn name_hits(rows: Seq<NamedRow>, deleted: Seq<String>, term: Seq<char>) -> Seq<Seq<char>>
    decreases rows.len(),
{
    if rows.len() == 0 {
        Seq::empty()
    } else {
        let rest = name_hits(rows.drop_last(), deleted, term);
        let row = rows.last();
        if name_matches(row.name@, term) && !is_deleted(deleted, row.key@) {
            rest.push(row.key@)
        } else {
            rest
        }
    }
}

/// The keys of the rows whose lowercase name, given in `names` at the same
/// index, holds the lowercase `term`, and whose item is not soft-deleted, in
/// row order.
pub open spec fn folded_hits(
    rows: Seq<NamedRow>,
    names: Seq<Seq<char>>,
    deleted: Seq<String>,
    term: Seq<char>,
) -> Seq<Seq<char>>
    decreases rows.len(),
{
    if rows.len() == 0 {
        Seq::empty()
    } else {
        let rest = folded_hits(rows.drop_last(), names.drop_last(), deleted, term);
        let row = rows.last();
        if occurs_in(names.last(), term) && !is_deleted(deleted, row.key@) {
            rest.push(row.key@)
        } else {
            rest
        }
    }
}

/// Searching with the lowercase forms of the names and the term finds what
/// searching with the names and the term finds.
pub proof fn lemma_folded_hits_are_name_hits(
    rows: Seq<NamedRow>,
    names: Seq<Seq<char>>,
    deleted: Seq<String>,
    term: Seq<char>,
)
    requires
        names.len() == rows.len(),
        forall|i: int| 0 <= i < rows.len() ==> names[i] == lower_of(#[trigger] rows[i].name@),
    ensures
        folded_hits(rows, names, deleted, lower_of(term)) == name_hits(rows, deleted, term),
    decreases rows.len(),
{
    if rows.len() > 0 {
        let (r0, n0) = (rows.drop_last(), names.drop_last());
        assert forall|i: int| 0 <= i < r0.len() implies n0[i] == lower_of(#[trigger] r0[i].name@) by {
            assert(r0[i] == rows[i]);
        }
        lemma_folded_hits_are_name_hits(r0, n0, deleted, term);
        assert(names.last() == lower_of(rows[rows.len() - 1].name@));
    }
}

/// Search by tag or collection name, given the lowercase form of each row's
/// name (at the same index) and of the term: the keys of the rows whose
/// name holds the term, leaving out soft-deleted items.
pub fn select_keys_by_folded_name(
    rows: &Vec<NamedRow>,
    folded_names: &Vec<String>,
    deleted: &Vec<String>,
    folded_term: &str,
) -> (r: Vec<String>)
    requires
        folded_names@.len() == rows@.len(),
    ensures
        views_of(r@) == folded_hits(rows@, views_of(folded_names@), deleted@, folded_term@),
{
    let ghost names = views_of(folded_names@);
    let mut r: Vec<String> = Vec::new();
    let mut i: usize = 0;
    while i < rows.len()
        invariant
            i <= rows@.len() == folded_names@.len(),
            names == views_of(folded_names@),
            views_of(r@) == folded_hits(rows@.take(i as int), names.take(i as int), deleted@, folded_term@),
        decreases rows@.len() - i,
    {
        assert(rows@.take(i + 1).drop_last() =~= rows@.take(i as int));
        assert(names.take(i + 1).drop_last() =~= names.take(i as int));
        let row = &rows[i];
        if contains_str(folded_names[i].as_str(), folded_term) && !contains_key(deleted, row.key.as_str()) {
            let ghost before = r@;
            r.push(row.key.clone());
            assert(views_of(r@) =~= views_of(before).push(row.key@));
        }
        i = i + 1;
    }
    assert(rows@.take(rows@.len() as int) =~= rows@);
    assert(names.take(rows@.len() as int) =~= names);
    r
}

/// Search by tag or collection name: the keys of the rows whose name holds
/// `term`, ignoring case, leaving out soft-deleted items.
pub fn select_keys_by_name(rows: &Vec<NamedRow>, deleted: &Vec<String>, term: &str) -> (r: Vec<String>)
    ensures
        views_of(r@) == name_hits(rows@, deleted@, term@),
{
    let folded_term = to_lower(term);
    let mut names: Vec<String> = Vec::new();
    let mut i: usize = 0;
    while i < rows.len()
        invariant
            i <= rows@.len(),
            names@.len() == i,
            forall|j: int| 0 <= j < i ==> names@[j]@ == lower_of(#[trigger] rows@[j].name@),
        decreases rows@.len() - i,
    {
        names.push(to_lower(rows[i].name.as_str()));
        i = i + 1;
    }
    let r = select_keys_by_folded_name(rows, &names, deleted, folded_term.as_str());
    proof {
        lemma_folded_hits_are_name_hits(rows@, views_of(names@), deleted@, term@);
    }
    r
}

/// Whether a relation says that the item in `key` is related to another one:
/// the relation is of the related kind, its subject is the item, and the
/// subject is neither an attachment nor soft-deleted.
pub open spec fn relation_selected(row: RelationRow, key: Seq<char>, deleted: Seq<String>) -> bool {
    &&& row.predicate_id == RELATED_PREDICATE
    &&& row.item_type_id != ATTACHMENT_ITEM_TYPE
    &&& !is_deleted(deleted, row.key@)
    &&& row.key@ == key
}

/// The keys of the items related to the item in `key`, in row order: those
/// of the selected relations whose object URL gives a key that is not
/// soft-deleted.
pub open spec fn related_keys(rows: Seq<RelationRow>, key: Seq<char>, deleted: Seq<String>) -> Seq<Seq<char>>
    decreases rows.len(),
{
    if rows.len() == 0 {
        Seq::empty()
    } else {
        let rest = related_keys(rows.drop_last(), key, deleted);
        let row = rows.last();
        let target = object_url_key(row.object@);
        if relation_selected(row, key, deleted) && target is Some && !is_deleted(deleted, target->Some_0) {
            rest.push(target->Some_0)
        } else {
            rest
        }
    }
}

/// The keys of the items related to the item in `key`.
pub fn select_related_keys(rows: &Vec<RelationRow>, key: &str, deleted: &Vec<String>) -> (r: Vec<String>)
    ensures
        views_of(r@) == related_keys(rows@, key@, deleted@),
{
    let mut r: Vec<String> = Vec::new();
    let mut i: usize = 0;
    while i < rows.len()
        invariant
            i <= rows@.len(),
            views_of(r@) == related_keys(rows@.take(i as int), key@, deleted@),
        decreases rows@.len() - i,
    {
        assert(rows@.take(i + 1).drop_last() =~= rows@.take(i as int));
        let row = &rows[i];
        if row.predicate_id == RELATED_PREDICATE && row.item_type_id != ATTACHMENT_ITEM_TYPE && str_eq(
            row.key.as_str(),
            key,
        ) && !contains_key(deleted, row.key.as_str()) {
            match parse_zotero_key_from_object_url(row.object.as_str()) {
                Some(target) => {
                    if !contains_key(deleted, target.as_str()) {
                        let ghost before = r@;
                        r.push(target);
                        assert(views_of(r@) =~= views_of(before).push(object_url_key(row.object@)->Some_0));
                    }
                },
                None => {},
            }
        }
        i = i + 1;
    }
    assert(rows@.take(rows@.len() as int) =~= rows@);
    r
}

/// Searching by name ignores case: two terms with the same lowercase form
/// select the same items.
pub proof fn lemma_name_search_ignores_case(
    rows: Seq<NamedRow>,
    deleted: Seq<String>,
    a: Seq<char>,
    b: Seq<char>,
)
    requires
        lower_of(a) == lower_of(b),
    ensures
        name_hits(rows, deleted, a) == name_hits(rows, deleted, b),
    decreases rows.len(),
{
    if rows.len() > 0 {
        lemma_name_search_ignores_case(rows.drop_last(), deleted, a, b);
    }
}

/// No soft-deleted item is among the results of a search by name.
pub proof fn lemma_name_search_skips_deleted(rows: Seq<NamedRow>, deleted: Seq<String>, term: Seq<char>)
    ensures
        forall|i: int|
            0 <= i < name_hits(rows, deleted, term).len() ==> !is_deleted(deleted, #[trigger] name_hits(rows, deleted, term)[i]),
    decreases rows.len(),
{
    if rows.len() > 0 {
        let rest = name_hits(rows.drop_last(), deleted, term);
        lemma_name_search_skips_deleted(rows.drop_last(), deleted, term);
        assert forall|i: int| 0 <= i < name_hits(rows, deleted, term).len() implies !is_deleted(
            deleted,
            #[trigger] name_hits(rows, deleted, term)[i],
        ) by {
            if i < rest.len() {
                assert(name_hits(rows, deleted, term)[i] == rest[i]);
            }
        }
    }
}

/// No soft-deleted item is among the related items, and a soft-deleted
/// item has none.
pub proof fn lemma_related_skips_deleted(rows: Seq<RelationRow>, key: Seq<char>, deleted: Seq<String>)
    ensures
        forall|i: int|
            0 <= i < related_keys(rows, key, deleted).len() ==> !is_deleted(deleted, #[trigger] related_keys(rows, key, deleted)[i]),
        is_deleted(deleted, key) ==> related_keys(rows, key, deleted).len() == 0,
    decreases rows.len(),
{
    if rows.len() > 0 {
        let rest = related_keys(rows.drop_last(), key, deleted);
        lemma_related_skips_deleted(rows.drop_last(), key, deleted);
        assert forall|i: int| 0 <= i < related_keys(rows, key, deleted).len() implies !is_deleted(
            deleted,
            #[trigger] related_keys(rows, key, deleted)[i],
        ) by {
            if i < rest.len() {
                assert(related_keys(rows, key, deleted)[i] == rest[i]);
            }
        }
    }
}

} // verus!
