use vstd::prelude::*;

use crate::display::{aligned, display_width_of, get_aligned_string};
use crate::error::Error;
use crate::link::{item_link_of, note_link};
use crate::text::str_eq;

verus! {

/// The columns that the title takes in a one-line listing.
pub const TITLE_WIDTH: usize = 100;

/// A bibliographic item, with the fields that listings show.
#[derive(Debug)]
pub struct Item {
    /// The item's key, e.g. `HUMF2AEA`.
    pub key: String,
    /// The free-text `extra` field.
    pub extra: String,
    /// The year of the `date` field.
    pub date: String,
    /// The title.
    pub title: String,
}

/// The value that the last row for field `name` holds, if any row does.
pub open spec fn field_value(fields: Seq<(String, String)>, name: Seq<char>) -> Option<Seq<char>>
    decreases fields.len(),
{
    if fields.len() == 0 {
        None
    } else if fields.last().0@ == name {
        Some(fields.last().1@)
    } else {
        field_value(fields.drop_last(), name)
    }
}

/// The year that a date field gives: its first four characters, or `0000`
/// where the item has no date.
pub open spec fn year_of(date: Option<Seq<char>>) -> Seq<char> {
    match date {
        Some(d) => if d.len() >= 4 { d.take(4) } else { d },
        None => "0000"@,
    }
}

/// `s` on one line: each line break becomes `; `.
pub open spec fn one_line(s: Seq<char>) -> Seq<char>
    decreases s.len(),
{
    if s.len() == 0 {
        Seq::empty()
    } else {
        one_line(s.drop_last()) + if s.last() == '\n' { "; "@ } else { seq![s.last()] }
    }
}

/// The one-line listing of an item: key, year, aligned title and extra.
pub open spec fn listing(key: Seq<char>, date: Seq<char>, title: Seq<char>, extra: Seq<char>) -> Seq<char> {
    key + " => "@ + date + " | "@ + aligned(title, TITLE_WIDTH as nat) + " | "@ + one_line(extra)
}

/// The key that a line of a listing starts with: its first eight characters.
pub open spec fn line_key(line: Seq<char>) -> Option<Seq<char>> {
    if line.len() >= 8 {
        Some(line.take(8))
    } else {
        None
    }
}

/// A line of a listing gives back the key of its item, for keys of eight
/// characters.
pub proof fn lemma_listing_line_key(key: Seq<char>, date: Seq<char>, title: Seq<char>, extra: Seq<char>)
    requires
        key.len() == 8,
    ensures
        line_key(listing(key, date, title, extra)) == Some(key),
{
    let line = listing(key, date, title, extra);
    assert(line.take(8) =~= key);
}

/// The value of the last row for field `name`, if any row is for it.
fn find_field(fields: &Vec<(String, String)>, name: &str) -> (r: Option<String>)
    ensures
        r is Some <==> field_value(fields@, name@) is Some,
        r is Some ==> r->Some_0@ == field_value(fields@, name@)->Some_0,
{
    let mut i: usize = fields.len();
    assert(fields@.take(i as int) =~= fields@);
    while i > 0
        invariant
            i <= fields@.len(),
            field_value(fields@, name@) == field_value(fields@.take(i as int), name@),
        decreases i,
    {
        assert(fields@.take(i as int).drop_last() =~= fields@.take(i - 1));
        if str_eq(fields[i - 1].0.as_str(), name) {
            return Some(fields[i - 1].1.clone());
        }
        i = i - 1;
    }
    None
}

/// `s` on one line: each line break becomes `; `.
fn to_one_line(s: &str) -> (r: String)
    ensures
        r@ == one_line(s@),
{
    let n = s.unicode_len();
    let mut r = String::new();
    let mut i: usize = 0;
    while i < n
        invariant
            i <= n == s@.len(),
            r@ == one_line(s@.take(i as int)),
        decreases n - i,
    {
        assert(s@.take(i + 1).drop_last() =~= s@.take(i as int));
        let c = s.get_char(i);
        if c == '\n' {
            r.append("; ");
        } else {
            let one = s.substring_char(i, i + 1);
            assert(one@ =~= seq![c]);
            r.append(one);
        }
        i = i + 1;
    }
    assert(s@.take(n as int) =~= s@);
    r
}

impl Item {
    /// Every item has a key.
    pub open spec fn wf(&self) -> bool {
        self.key@.len() > 0
    }

    /// An item known only by its key; its other fields are empty.
    pub fn new(key: &str) -> (r: Item)
        requires
            key@.len() > 0,
        ensures
            r.wf(),
            r.key@ == key@,
            r.extra@ == Seq::<char>::empty(),
            r.date@ == Seq::<char>::empty(),
            r.title@ == Seq::<char>::empty(),
    {
        Item { key: String::from_str(key), extra: String::new(), date: String::new(), title: String::new() }
    }

    /// Assemble the item in `key` from its `(field name, value)` rows: the
    /// last row for a field wins, the date is cut to its year (`0000` where it
    /// is missing), and a missing title or extra is empty.
    pub fn from_fields(key: &str, fields: &Vec<(String, String)>) -> (r: Item)
        requires
            key@.len() > 0,
        ensures
            r.wf(),
            r.key@ == key@,
            r.extra@ == field_value(fields@, "extra"@).unwrap_or(Seq::empty()),
            r.title@ == field_value(fields@, "title"@).unwrap_or(Seq::empty()),
            r.date@ == year_of(field_value(fields@, "date"@)),
    {
        let extra = match find_field(fields, "extra") {
            Some(v) => v,
            None => String::new(),
        };
        let title = match find_field(fields, "title") {
            Some(v) => v,
            None => String::new(),
        };
        let date = match find_field(fields, "date") {
            Some(d) => {
                let n = d.as_str().unicode_len();
                if n >= 4 {
                    String::from_str(d.as_str().substring_char(0, 4))
                } else {
                    d
                }
            },
            None => String::from_str("0000"),
        };
        Item { key: String::from_str(key), extra, date, title }
    }

    /// Read an item from a line that starts with its key, such as a line of
    /// a listing (`HUMF2AEA => 2019 | ...`).
    pub fn from_line(s: &str) -> (r: Result<Item, Error>)
        ensures
            r is Ok <==> line_key(s@) is Some,
            r is Ok ==> r->Ok_0.wf() && r->Ok_0.key@ == line_key(s@)->Some_0
                && r->Ok_0.extra@.len() == 0 && r->Ok_0.date@.len() == 0 && r->Ok_0.title@.len() == 0,
            r is Err ==> r->Err_0 is Format,
    {
        if s.unicode_len() >= 8 {
            Ok(Item::new(s.substring_char(0, 8)))
        } else {
            Err(Error::Format(String::from_str(s)))
        }
    }

    /// The note-kind link in the zotero protocol that selects this item.
    pub fn item_link(&self) -> (r: String)
        ensures
            r@ == note_link(self.key@),
    {
        item_link_of(self.key.as_str())
    }

    /// The item on one line: `<key> => <year> | <title> | <extra>`, with the
    /// title laid out in exactly `TITLE_WIDTH` columns and the extra field's
    /// line breaks replaced by `; `.
    pub fn format_line(&self) -> (r: String)
        ensures
            r@ == listing(self.key@, self.date@, self.title@, self.extra@),
            display_width_of(aligned(self.title@, TITLE_WIDTH as nat)) == TITLE_WIDTH,
    {
        let title = get_aligned_string(self.title.as_str(), TITLE_WIDTH);
        let extra = to_one_line(self.extra.as_str());
        let mut r = String::from_str(self.key.as_str());
        r.append(" => ");
        r.append(self.date.as_str());
        r.append(" | ");
        r.append(title.as_str());
        r.append(" | ");
        r.append(extra.as_str());
        r
    }
}

impl std::str::FromStr for Item {
    type Err = Error;

    fn from_str(s: &str) -> (r: Result<Item, Error>)
        ensures
            r is Ok <==> line_key(s@) is Some,
            r is Ok ==> r->Ok_0.wf() && r->Ok_0.key@ == line_key(s@)->Some_0
                && r->Ok_0.extra@.len() == 0 && r->Ok_0.date@.len() == 0 && r->Ok_0.title@.len() == 0,
            r is Err ==> r->Err_0 is Format,
    {
        Item::from_line(s)
    }
}

} // verus!
