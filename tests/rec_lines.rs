use zotero::{Error, Rec};

#[test]
fn rec_from_listing_line() {
    let rec = Rec::from_line("HUMF2AEA => to read: chapter 2").unwrap();
    assert_eq!(rec.key, "HUMF2AEA");
    assert_eq!(rec.value, "to read: chapter 2");
    assert_eq!(rec.date, "");
    assert_eq!(rec.title, "");
    assert_eq!(rec.item_link(), "zotero://select/items/1_HUMF2AEA");
}

#[test]
fn rec_splits_at_first_arrow() {
    let rec: Rec = "  a =>  b => c  ".parse().unwrap();
    assert_eq!(rec.key, "a");
    assert_eq!(rec.value, "b => c");
    let rec = Rec::from_line("K=>").unwrap();
    assert_eq!(rec.key, "K");
    assert_eq!(rec.value, "");
}

#[test]
fn rec_without_arrow_is_rejected() {
    match Rec::from_line("HUMF2AEA = value") {
        Err(Error::Format(s)) => assert_eq!(s, "HUMF2AEA = value"),
        other => panic!("unexpected {:?}", other),
    }
}

#[test]
fn rec_trims_unicode_white_space() {
    let rec = Rec::from_line("\u{3000}K1\u{a0}=>\t v a l \u{2003}\n").unwrap();
    assert_eq!(rec.key, "K1");
    assert_eq!(rec.value, "v a l");
    let rec = Rec::from_line(" \u{200b}K =>x").unwrap();
    assert_eq!(rec.key, "\u{200b}K");
}
