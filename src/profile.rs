use vstd::prelude::*;

use crate::text::{contains_str, has_prefix, occurs_in, str_eq};

verus! {

/// A section of an ini file: its name, if any, and its properties in file
/// order.
#[derive(Debug)]
pub struct IniSection {
    pub name: Option<String>,
    pub properties: Vec<(String, String)>,
}

/// The value of the last property named `key`, if any.
pub open spec fn property(props: Seq<(String, String)>, key: Seq<char>) -> Option<Seq<char>>
    decreases props.len(),
{
    if props.len() == 0 {
        None
    } else if props.last().0@ == key {
        Some(props.last().1@)
    } else {
        property(props.drop_last(), key)
    }
}

/// Whether a section describes the default profile: its name starts with
/// `Profile` and its `Default` property is `1`.
pub open spec fn is_default_profile(sec: IniSection) -> bool {
    &&& sec.name is Some
    &&& "Profile"@.is_prefix_of(sec.name->Some_0@)
    &&& property(sec.properties@, "Default"@) == Some("1"@)
}

/// The `Path` property of the first section, from index `i` on, that
/// describes the default profile.
pub open spec fn default_profile_from(sections: Seq<IniSection>, i: int) -> Option<Seq<char>>
    decreases sections.len() - i,
{
    if i < 0 || i >= sections.len() {
        None
    } else if is_default_profile(sections[i]) {
        property(sections[i].properties@, "Path"@)
    } else {
        default_profile_from(sections, i + 1)
    }
}

/// The value of the last property named `key`, if any.
fn find_property(props: &Vec<(String, String)>, key: &str) -> (r: Option<String>)
    ensures
        r is Some <==> property(props@, key@) is Some,
        r is Some ==> r->Some_0@ == property(props@, key@)->Some_0,
{
    let mut i: usize = props.len();
    assert(props@.take(i as int) =~= props@);
    while i > 0
        invariant
            i <= props@.len(),
            property(props@, key@) == property(props@.take(i as int), key@),
        decreases i,
    {
        assert(props@.take(i as int).drop_last() =~= props@.take(i - 1));
        if str_eq(props[i - 1].0.as_str(), key) {
            return Some(props[i - 1].1.clone());
        }
        i = i - 1;
    }
    None
}

/// The folder of the default profile, relative to the file that lists the
/// profiles (`profiles.ini`), from that file's sections.
pub fn default_profile_path(sections: &Vec<IniSection>) -> (r: Option<String>)
    ensures
        r is Some <==> default_profile_from(sections@, 0) is Some,
        r is Some ==> r->Some_0@ == default_profile_from(sections@, 0)->Some_0,
{
    proof {
        reveal_strlit("1");
    }
    let mut i: usize = 0;
    while i < sections.len()
        invariant
            i <= sections@.len(),
            default_profile_from(sections@, 0) == default_profile_from(sections@, i as int),
        decreases sections@.len() - i,
    {
        let sec = &sections[i];
        let named = match &sec.name {
            Some(n) => has_prefix(n.as_str(), "Profile"),
            None => false,
        };
        if named {
            let is_default = match find_property(&sec.properties, "Default") {
                Some(v) => str_eq(v.as_str(), "1"),
                None => false,
            };
            if is_default {
                return find_property(&sec.properties, "Path");
            }
        }
        i = i + 1;
    }
    None
}

/// The preference that names the data folder.
pub open spec fn data_dir_pref() -> Seq<char> {
    "extensions.zotero.dataDir"@
}

/// The index of the last `c` in `s`, if any.
pub open spec fn last_index(s: Seq<char>, c: char) -> Option<int>
    decreases s.len(),
{
    if s.len() == 0 {
        None
    } else if s.last() == c {
        Some(s.len() - 1)
    } else {
        last_index(s.drop_last(), c)
    }
}

/// The last `c` of `s` stands inside `s`.
proof fn lemma_last_index_in_range(s: Seq<char>, c: char)
    ensures
        last_index(s, c) is Some ==> 0 <= last_index(s, c)->Some_0 < s.len(),
    decreases s.len(),
{
    if s.len() > 0 {
        lemma_last_index_in_range(s.drop_last(), c);
    }
}

/// The text between the last two double quotes of a line, if it has two.
pub open spec fn quoted_value(line: Seq<char>) -> Option<Seq<char>> {
    match last_index(line, '"') {
        Some(q) => match last_index(line.take(q), '"') {
            Some(p) => Some(line.subrange(p + 1, q)),
            None => None,
        },
        None => None,
    }
}

/// The end of the line of `s` that goes on at index `i`: the index of the
/// next line break, or the length of `s`.
pub open spec fn line_end(s: Seq<char>, i: int) -> int
    decreases s.len() - i,
{
    if i < 0 || i >= s.len() || s[i] == '\n' {
        i
    } else {
        line_end(s, i + 1)
    }
}

/// The data folder that the first line, from index `start` on, that mentions
/// the data folder preference gives as the quoted value at its end.
pub open spec fn data_dir_from(s: Seq<char>, start: int) -> Option<Seq<char>>
    decreases s.len() - start via data_dir_from_decreases
{
    if start < 0 || start >= s.len() {
        None
    } else {
        let end = line_end(s, start);
        let line = s.subrange(start, end);
        if occurs_in(line, data_dir_pref()) {
            quoted_value(line)
        } else if end < s.len() {
            data_dir_from(s, end + 1)
        } else {
            None
        }
    }
}

/// A line ends no earlier than where it goes on, and within `s`.
proof fn lemma_line_end_in_range(s: Seq<char>, i: int)
    requires
        0 <= i <= s.len(),
    ensures
        i <= line_end(s, i) <= s.len(),
    decreases s.len() - i,
{
    if i < s.len() && s[i] != '\n' {
        lemma_line_end_in_range(s, i + 1);
    }
}

#[via_fn]
proof fn data_dir_from_decreases(s: Seq<char>, start: int) {
    if 0 <= start < s.len() {
        lemma_line_end_in_range(s, start);
    }
}

/// The index of the last `c` in `s`, if any.
fn find_last(s: &str, c: char) -> (r: Option<usize>)
    ensures
        r is Some <==> last_index(s@, c) is Some,
        r is Some ==> r->Some_0 as int == last_index(s@, c)->Some_0,
        r is Some ==> r->Some_0 < s@.len(),
{
    proof {
        lemma_last_index_in_range(s@, c);
    }
    let mut i: usize = s.unicode_len();
    assert(s@.take(i as int) =~= s@);
    while i > 0
        invariant
            i <= s@.len(),
            last_index(s@, c) == last_index(s@.take(i as int), c),
        decreases i,
    {
        assert(s@.take(i as int).drop_last() =~= s@.take(i - 1));
        if s.get_char(i - 1) == c {
            return Some(i - 1);
        }
        i = i - 1;
    }
    None
}

/// The text between the last two double quotes of a line, if it has two.
fn quoted_value_of(line: &str) -> (r: Option<String>)
    ensures
        r is Some <==> quoted_value(line@) is Some,
        r is Some ==> r->Some_0@ == quoted_value(line@)->Some_0,
{
    match find_last(line, '"') {
        Some(q) => {
            let head = line.substring_char(0, q);
            match find_last(head, '"') {
                Some(p) => Some(String::from_str(line.substring_char(p + 1, q))),
                None => None,
            }
        },
        None => None,
    }
}

/// Find the data folder in the text of a preference file (`prefs.js`), from
/// a line such as
/// `user_pref("extensions.zotero.dataDir", "/home/user/Data/zotero");`.
pub fn parse_zotero_data_dir_from_pref_js(s: &str) -> (r: Option<String>)
    ensures
        r is Some <==> data_dir_from(s@, 0) is Some,
        r is Some ==> r->Some_0@ == data_dir_from(s@, 0)->Some_0,
{
    let n = s.unicode_len();
    let mut start: usize = 0;
    while start < n
        invariant
            start <= n == s@.len(),
            data_dir_from(s@, 0) == data_dir_from(s@, start as int),
        decreases n - start,
    {
        let mut end: usize = start;
        while end < n && s.get_char(end) != '\n'
            invariant
                start <= end <= n == s@.len(),
                line_end(s@, start as int) == line_end(s@, end as int),
            decreases n - end,
        {
            end = end + 1;
        }
        let line = s.substring_char(start, end);
        if contains_str(line, "extensions.zotero.dataDir") {
            return quoted_value_of(line);
        }
        if end == n {
            return None;
        }
        start = end + 1;
    }
    None
}

} // verus!
