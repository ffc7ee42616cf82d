use unicode_width::UnicodeWidthStr;
use vstd::prelude::*;

verus! {

/// The columns that a string takes on a terminal, as the unicode-width crate
/// measures them (wide East Asian characters take two, combining marks none).
pub uninterp spec fn display_width_of(s: Seq<char>) -> nat;

/// `n` spaces.
pub open spec fn spaces(n: nat) -> Seq<char> {
    Seq::new(n, |_i: int| ' ')
}

/// Every character is printable ASCII, from the space to the tilde.
pub open spec fn is_printable_ascii(s: Seq<char>) -> bool {
    forall|i: int| 0 <= i < s.len() ==> ' ' <= #[trigger] s[i] <= '~'
}

/// Relies on `unicode_width::UnicodeWidthStr::width` for the display width of
/// `s`. A printable ASCII character takes one column and joins with nothing,
/// and a space also leaves the width of what stands before it unchanged, so
/// trailing spaces add one column each (the crate sums with wrapping).
#[verifier::external_body]
fn str_width(s: &str) -> (r: usize)
    ensures
        r as nat == display_width_of(s@),
        is_printable_ascii(s@) ==> r as nat == s@.len(),
        forall|n: nat| r + n <= usize::MAX ==> #[trigger] display_width_of(s@ + spaces(n)) == r + n,
{
    UnicodeWidthStr::width(s)
}

/// `s` followed by `n` spaces.
fn push_spaces(s: String, n: usize) -> (r: String)
    ensures
        r@ == s@ + spaces(n as nat),
{
    proof {
        reveal_strlit(" ");
    }
    let mut r = s;
    let mut i: usize = 0;
    while i < n
        invariant
            i <= n,
            r@ == s@ + spaces(i as nat),
        decreases n - i,
    {
        r.append(" ");
        proof {
            reveal_strlit(" ");
        }
        assert(spaces((i + 1) as nat) =~= spaces(i as nat) + " "@);
        assert(s@ + spaces((i + 1) as nat) =~= s@ + spaces(i as nat) + " "@);
        i = i + 1;
    }
    r
}

/// Pad `s`, whose display width is `width`, with spaces up to `max_width`
/// columns.
pub fn pad_to_width(s: &str, width: usize, max_width: usize) -> (r: String)
    requires
        width <= max_width,
    ensures
        r@ == s@ + spaces((max_width - width) as nat),
{
    push_spaces(String::from_str(s), max_width - width)
}

/// The ellipsis that ends a shortened title.
pub open spec fn dots() -> Seq<char> {
    "..."@
}

/// The first `k` characters of `s`, then an ellipsis.
pub open spec fn ellipsized(s: Seq<char>, k: nat) -> Seq<char> {
    s.take(k as int) + dots()
}

/// The largest `j <= k` for which the first `j` characters of `s` and an
/// ellipsis fit in `max_width` columns (0 where none does).
pub open spec fn fit_len_from(s: Seq<char>, max_width: nat, k: nat) -> nat
    decreases k,
{
    if k == 0 || display_width_of(ellipsized(s, k)) <= max_width {
        k
    } else {
        fit_len_from(s, max_width, (k - 1) as nat)
    }
}

/// The longest prefix of `s` that fits in `max_width` columns with an
/// ellipsis after it, and that ellipsis.
pub open spec fn shortened(s: Seq<char>, max_width: nat) -> Seq<char> {
    ellipsized(s, fit_len_from(s, max_width, s.len()))
}

/// `s` laid out in exactly `max_width` columns: padded with spaces where it
/// fits, else shortened with an ellipsis and then padded.
pub open spec fn aligned(s: Seq<char>, max_width: nat) -> Seq<char> {
    if display_width_of(s) <= max_width {
        s + spaces((max_width - display_width_of(s)) as nat)
    } else {
        shortened(s, max_width) + spaces((max_width - display_width_of(shortened(s, max_width))) as nat)
    }
}

/// Lay out `s` in exactly `max_width` terminal columns, for aligned listings.
pub fn get_aligned_string(s: &str, max_width: usize) -> (r: String)
    requires
        max_width >= 3,
    ensures
        r@ == aligned(s@, max_width as nat),
        display_width_of(r@) == max_width,
{
    let w = str_width(s);
    if w <= max_width {
        let r = pad_to_width(s, w, max_width);
        assert(display_width_of(s@ + spaces((max_width - w) as nat)) == max_width);
        return r;
    }
    proof {
        reveal_strlit("...");
    }
    let len = s.unicode_len();
    let mut k: usize = len;
    loop
        invariant
            k <= len == s@.len(),
            max_width >= 3,
            display_width_of(s@) > max_width,
            fit_len_from(s@, max_width as nat, len as nat) == fit_len_from(s@, max_width as nat, k as nat),
        decreases k,
    {
        let cand = String::from_str(s.substring_char(0, k)).concat("...");
        assert(cand@ == ellipsized(s@, k as nat));
        let cw = str_width(cand.as_str());
        if cw <= max_width {
            let r = pad_to_width(cand.as_str(), cw, max_width);
            assert(display_width_of(cand@ + spaces((max_width - cw) as nat)) == max_width);
            return r;
        }
        if k == 0 {
            proof {
                reveal_strlit("...");
            }
            assert(cand@ =~= "..."@);
            assert(is_printable_ascii(cand@));
            assert(false);
        }
        k = k - 1;
    }
}

} // verus!
