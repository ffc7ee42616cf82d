use zotero::{
    contains_key, contains_str, full_attachment_path, select_attachment_paths, select_keys_by_folded_name,
    select_keys_by_name,
    select_related_keys, ItemAttachment, NamedRow, RelationRow, ATTACHMENT_ITEM_TYPE, RELATED_PREDICATE,
};

fn named(rows: &[(&str, &str)]) -> Vec<NamedRow> {
    rows.iter().map(|(k, n)| NamedRow { key: k.to_string(), name: n.to_string() }).collect()
}

fn keys(v: &[&str]) -> Vec<String> {
    v.iter().map(|s| s.to_string()).collect()
}

fn relation(key: &str, item_type_id: i64, predicate_id: i64, object: &str) -> RelationRow {
    RelationRow { key: key.to_string(), item_type_id, predicate_id, object: object.to_string() }
}

fn attachment(id: i32, parent: i32, content_type: Option<&str>, path: Option<&str>) -> ItemAttachment {
    ItemAttachment {
        id: Some(id),
        parent_item_id: Some(parent),
        content_type: content_type.map(|s| s.to_string()),
        path: path.map(|s| s.to_string()),
    }
}

#[test]
fn resolve_strips_storage_prefix() {
    assert_eq!(full_attachment_path("/data/storage", "ABCD1234", "storage:foo.pdf"), "/data/storage/ABCD1234/foo.pdf");
}

#[test]
fn resolve_keeps_plain_path() {
    assert_eq!(full_attachment_path("/data/storage", "ABCD1234", "foo.pdf"), "/data/storage/ABCD1234/foo.pdf");
    assert_eq!(full_attachment_path("/r", "K", "storage"), "/r/K/storage");
    assert_eq!(full_attachment_path("/r", "K", "storage:"), "/r/K/");
}

#[test]
fn resolve_is_repeatable() {
    let a = full_attachment_path("/r", "ABCD1234", "storage:x.note");
    let b = full_attachment_path("/r", "ABCD1234", "storage:x.note");
    assert_eq!(a, b);
}

#[test]
fn contains_str_finds_substrings() {
    assert!(contains_str("to read later", "read"));
    assert!(contains_str("abc", ""));
    assert!(contains_str("abc", "abc"));
    assert!(!contains_str("abc", "abcd"));
    assert!(!contains_str("todo", "TODO"));
}

#[test]
fn tag_search_ignores_case() {
    let rows = named(&[("AAAA1111", "TODO"), ("BBBB2222", "todo-later"), ("CCCC3333", "done"), ("DDDD4444", "ToDo")]);
    let upper = select_keys_by_name(&rows, &Vec::new(), "TODO");
    let lower = select_keys_by_name(&rows, &Vec::new(), "todo");
    assert_eq!(upper, keys(&["AAAA1111", "BBBB2222", "DDDD4444"]));
    assert_eq!(upper, lower);
}

#[test]
fn collection_search_matches_substrings() {
    let rows = named(&[("AAAA1111", "Catalysis 2020"), ("BBBB2222", "Reading"), ("CCCC3333", "catalysis-old")]);
    assert_eq!(select_keys_by_name(&rows, &Vec::new(), "Catal"), keys(&["AAAA1111", "CCCC3333"]));
    assert_eq!(select_keys_by_name(&rows, &Vec::new(), "zeolite"), keys(&[]));
    assert_eq!(select_keys_by_name(&Vec::new(), &Vec::new(), "x"), keys(&[]));
}

#[test]
fn name_search_skips_deleted_items() {
    let rows = named(&[("AAAA1111", "todo"), ("BBBB2222", "todo"), ("AAAA1111", "Todo again")]);
    let deleted = keys(&["AAAA1111"]);
    assert_eq!(select_keys_by_name(&rows, &deleted, "todo"), keys(&["BBBB2222"]));
}

#[test]
fn deleted_lookup() {
    let deleted = keys(&["AAAA1111", "BBBB2222"]);
    assert!(contains_key(&deleted, "BBBB2222"));
    assert!(!contains_key(&deleted, "CCCC3333"));
    assert!(!contains_key(&Vec::new(), ""));
}

#[test]
fn related_items_follow_the_related_predicate() {
    let rows = vec![
        relation("2X4DGF8X", 2, RELATED_PREDICATE, "http://zotero.org/users/15074/items/9F6B5E9G"),
        relation("2X4DGF8X", 2, 1, "http://zotero.org/users/15074/items/AAAAAAAA"),
        relation("2X4DGF8X", ATTACHMENT_ITEM_TYPE, RELATED_PREDICATE, "http://zotero.org/users/15074/items/BBBBBBBB"),
        relation("OTHERKEY", 2, RELATED_PREDICATE, "http://zotero.org/users/15074/items/CCCCCCCC"),
        relation("2X4DGF8X", 2, RELATED_PREDICATE, "https://elsewhere.org/items/DDDDDDDD"),
        relation("2X4DGF8X", 2, RELATED_PREDICATE, "http://zotero.org/users/15074/items/M2S2HTNN"),
    ];
    assert_eq!(select_related_keys(&rows, "2X4DGF8X", &Vec::new()), keys(&["9F6B5E9G", "M2S2HTNN"]));
}

#[test]
fn related_items_skip_deleted_items() {
    let rows = vec![
        relation("2X4DGF8X", 2, RELATED_PREDICATE, "http://zotero.org/users/15074/items/9F6B5E9G"),
        relation("2X4DGF8X", 2, RELATED_PREDICATE, "http://zotero.org/users/15074/items/M2S2HTNN"),
    ];
    assert_eq!(select_related_keys(&rows, "2X4DGF8X", &keys(&["9F6B5E9G"])), keys(&["M2S2HTNN"]));
    assert_eq!(select_related_keys(&rows, "2X4DGF8X", &keys(&["2X4DGF8X"])), keys(&[]));
}

#[test]
fn attachment_paths_of_listed_types() {
    let rows = vec![
        ("KEYPDF01".to_string(), attachment(11, 7, Some("application/pdf"), Some("storage:paper.pdf"))),
        ("KEYNOTE2".to_string(), attachment(12, 7, Some("application/x-note"), Some("storage:life.note"))),
        ("KEYHTML3".to_string(), attachment(13, 7, Some("text/html"), Some("storage:page.html"))),
        ("KEYNOPA4".to_string(), attachment(14, 7, Some("application/pdf"), None)),
        ("KEYOTHR5".to_string(), attachment(15, 8, Some("application/pdf"), Some("storage:other.pdf"))),
        ("KEYLINK6".to_string(), attachment(16, 7, Some("application/pdf"), Some("/abs/linked.pdf"))),
        ("KEYNONE7".to_string(), attachment(17, 7, None, Some("storage:x.pdf"))),
    ];
    let paths = select_attachment_paths("/zotero/storage", 7, &rows, &Vec::new());
    assert_eq!(
        paths,
        keys(&[
            "/zotero/storage/KEYPDF01/paper.pdf",
            "/zotero/storage/KEYNOTE2/life.note",
            "/zotero/storage/KEYLINK6//abs/linked.pdf",
        ])
    );
}

#[test]
fn attachment_paths_skip_deleted_attachments() {
    let rows = vec![
        ("KEYPDF01".to_string(), attachment(11, 7, Some("application/pdf"), Some("storage:paper.pdf"))),
        ("KEYPDF02".to_string(), attachment(12, 7, Some("application/pdf"), Some("storage:draft.pdf"))),
    ];
    let paths = select_attachment_paths("/s", 7, &rows, &keys(&["KEYPDF02"]));
    assert_eq!(paths, keys(&["/s/KEYPDF01/paper.pdf"]));
}

#[test]
fn folded_search_matches_given_lowercase_forms() {
    let rows = named(&[("AAAA1111", "TODO"), ("BBBB2222", "Done"), ("CCCC3333", "ToDo later")]);
    let folded = keys(&["todo", "done", "todo later"]);
    assert_eq!(select_keys_by_folded_name(&rows, &folded, &Vec::new(), "todo"), keys(&["AAAA1111", "CCCC3333"]));
    assert_eq!(select_keys_by_folded_name(&rows, &folded, &keys(&["CCCC3333"]), "todo"), keys(&["AAAA1111"]));
    assert_eq!(select_keys_by_folded_name(&rows, &folded, &Vec::new(), "TODO"), keys(&[]));
    assert_eq!(select_keys_by_folded_name(&rows, &folded, &Vec::new(), ""), keys(&["AAAA1111", "BBBB2222", "CCCC3333"]));
}
