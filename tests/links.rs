use zotero::{get_item_key_from_link, item_link_of, parse_zotero_key_from_object_url, Error, Item};

#[test]
fn database_test_key_from_object_url() {
    let url = "http://zotero.org/users/15074/items/M2S2HTNN";
    let parsed_key = parse_zotero_key_from_object_url(url);
    assert_eq!(parsed_key, Some("M2S2HTNN".to_string()))
}

#[test]
fn db_test_key_from_object_url() {
    let url = "http://zotero.org/users/15074/items/M2S2HTNN";
    let parsed_key = parse_zotero_key_from_object_url(url);
    assert_eq!(parsed_key, Some("M2S2HTNN".to_string()))
}

#[test]
fn object_url_on_another_host_gives_none() {
    assert_eq!(parse_zotero_key_from_object_url("https://example.org/users/1/items/M2S2HTNN"), None);
    assert_eq!(parse_zotero_key_from_object_url(""), None);
}

#[test]
fn object_url_without_items_segment_gives_none() {
    assert_eq!(parse_zotero_key_from_object_url("http://zotero.org/groups/7"), None);
    assert_eq!(parse_zotero_key_from_object_url("http://zotero.org/users/1/xitems/K"), None);
    assert_eq!(parse_zotero_key_from_object_url("http://zotero.org"), None);
}

#[test]
fn object_url_uses_last_items_segment() {
    assert_eq!(
        parse_zotero_key_from_object_url("http://zotero.org/items/users/items/ABCD1234"),
        Some("ABCD1234".to_string())
    );
}

#[test]
fn decode_note_and_attachment_links() {
    assert_eq!(get_item_key_from_link("zotero://select/items/1_NIUYMGLJ"), Ok("NIUYMGLJ".to_string()));
    assert_eq!(get_item_key_from_link("zotero://select/items/0_U5MRLMBI"), Ok("U5MRLMBI".to_string()));
    assert_eq!(get_item_key_from_link("zotero://select/items/1_"), Ok(String::new()));
}

#[test]
fn decode_rejects_other_links() {
    for link in ["", "zotero://select/items/2_NIUYMGLJ", "http://zotero.org/items/X", "NIUYMGLJ"] {
        match get_item_key_from_link(link) {
            Err(Error::Format(s)) => assert_eq!(s, link),
            other => panic!("unexpected {:?}", other),
        }
    }
}

#[test]
fn encode_then_decode_note_link() {
    let link = item_link_of("HUMF2AEA");
    assert_eq!(link, "zotero://select/items/1_HUMF2AEA");
    assert_eq!(get_item_key_from_link(&link), Ok("HUMF2AEA".to_string()));
}

#[test]
fn attachment_kind_link_does_not_round_trip() {
    let attachment_link = "zotero://select/items/0_HUMF2AEA";
    let key = get_item_key_from_link(attachment_link).unwrap();
    let again = Item::new(&key).item_link();
    assert_eq!(again, "zotero://select/items/1_HUMF2AEA");
    assert_ne!(again, attachment_link);
}
