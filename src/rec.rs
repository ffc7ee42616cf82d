use vstd::prelude::*;

use crate::error::Error;
use crate::link::{item_link_of, note_link};
use crate::text::{find_first, first_from};

verus! {

/// Whether `c` has the Unicode White_Space property, the white space that
/// `str::trim` removes.
pub open spec fn is_white_space(c: char) -> bool {
    ('\u{9}' <= c <= '\u{d}') || c == ' ' || c == '\u{85}' || c == '\u{a0}' || c == '\u{1680}'
        || ('\u{2000}' <= c <= '\u{200a}') || c == '\u{2028}' || c == '\u{2029}' || c == '\u{202f}'
        || c == '\u{205f}' || c == '\u{3000}'
}

/// Whether `c` has the Unicode White_Space property.
fn white_space(c: char) -> (r: bool)
    ensures
        r == is_white_space(c),
{
    ('\u{9}' <= c && c <= '\u{d}') || c == ' ' || c == '\u{85}' || c == '\u{a0}' || c == '\u{1680}'
        || ('\u{2000}' <= c && c <= '\u{200a}') || c == '\u{2028}' || c == '\u{2029}' || c == '\u{202f}'
        || c == '\u{205f}' || c == '\u{3000}'
}

/// `s` without its leading white space.
pub open spec fn trim_start(s: Seq<char>) -> Seq<char>
    decreases s.len(),
{
    if s.len() > 0 && is_white_space(s[0]) {
        trim_start(s.skip(1))
    } else {
        s
    }
}

/// `s` without its trailing white space.
pub open spec fn trim_end(s: Seq<char>) -> Seq<char>
    decreases s.len(),
{
    if s.len() > 0 && is_white_space(s.last()) {
        trim_end(s.drop_last())
    } else {
        s
    }
}

/// `s` without its leading and trailing white space.
pub open spec fn trimmed(s: Seq<char>) -> Seq<char> {
    trim_end(trim_start(s))
}

/// `s` without its leading and trailing white space.
fn trim(s: &str) -> (r: String)
    ensures
        r@ == trimmed(s@),
{
    let n = s.unicode_len();
    let mut i: usize = 0;
    assert(s@.skip(0) =~= s@);
    while i < n && white_space(s.get_char(i))
        invariant
            i <= n == s@.len(),
            trim_start(s@) == trim_start(s@.skip(i as int)),
        decreases n - i,
    {
        assert(s@.skip(i as int).skip(1) =~= s@.skip(i + 1));
        i = i + 1;
    }
    assert(trim_start(s@) == s@.skip(i as int));
    assert(s@.skip(i as int) =~= s@.subrange(i as int, n as int));
    let mut j: usize = n;
    while j > i && white_space(s.get_char(j - 1))
        invariant
            i <= j <= n == s@.len(),
            trimmed(s@) == trim_end(s@.subrange(i as int, j as int)),
        decreases j,
    {
        assert(s@.subrange(i as int, j as int).drop_last() =~= s@.subrange(i as int, j - 1));
        j = j - 1;
    }
    String::from_str(s.substring_char(i, j))
}

/// A key with one value shown beside it, such as the line of a listing.
#[derive(Debug)]
pub struct Rec {
    pub key: String,
    pub value: String,
    pub date: String,
    pub title: String,
}

/// The separator between key and value in a record line.
pub open spec fn arrow() -> Seq<char> {
    "=>"@
}

/// The key and value of a record line `<key> => <value>`, each trimmed:
/// split at the first arrow.
pub open spec fn rec_parts(line: Seq<char>) -> Option<(Seq<char>, Seq<char>)> {
    match first_from(line, arrow(), 0) {
        Some(i) => Some((trimmed(line.take(i)), trimmed(line.skip(i + arrow().len())))),
        None => None,
    }
}

impl Rec {
    /// Read a record from a line `<key> => <value>`.
    pub fn from_line(s: &str) -> (r: Result<Rec, Error>)
        ensures
            r is Ok <==> rec_parts(s@) is Some,
            r is Ok ==> r->Ok_0.key@ == rec_parts(s@)->Some_0.0 && r->Ok_0.value@ == rec_parts(s@)->Some_0.1
                && r->Ok_0.date@.len() == 0 && r->Ok_0.title@.len() == 0,
            r is Err ==> r->Err_0 is Format,
    {
        proof {
            reveal_strlit("=>");
        }
        match find_first(s, "=>") {
            Some(i) => {
                let n = s.unicode_len();
                let key = trim(s.substring_char(0, i));
                let value = trim(s.substring_char(i + 2, n));
                Ok(Rec { key, value, date: String::new(), title: String::new() })
            },
            None => Err(Error::Format(String::from_str(s))),
        }
    }

    /// The note-kind link in the zotero protocol that selects this record's
    /// item.
    pub fn item_link(&self) -> (r: String)
        ensures
            r@ == note_link(self.key@),
    {
        item_link_of(self.key.as_str())
    }
}

impl std::str::FromStr for Rec {
    type Err = Error;

    fn from_str(s: &str) -> (r: Result<Rec, Error>)
        ensures
            r is Ok <==> rec_parts(s@) is Some,
            r is Ok ==> r->Ok_0.key@ == rec_parts(s@)->Some_0.0 && r->Ok_0.value@ == rec_parts(s@)->Some_0.1
                && r->Ok_0.date@.len() == 0 && r->Ok_0.title@.len() == 0,
            r is Err ==> r->Err_0 is Format,
    {
        Rec::from_line(s)
    }
}

} // verus!
