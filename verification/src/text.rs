//! Display-string helpers: character-exact truncation and string equality.

use vstd::prelude::*;
use vstd::string::{StrSliceExecFns, StringExecFns};

verus! {

/// Character-by-character string equality, stated over the views.
pub fn str_eq(a: &str, b: &str) -> (r: bool)
    ensures
        r == (a@ == b@),
{
    let sa = String::from_str(a);
    let sb = String::from_str(b);
    sa == sb
}

/// Shorten a display string to at most `max_len` characters.
///
/// Input of at most `max_len` characters passes through unchanged; longer
/// input is cut to exactly `max_len` characters, the first `max_len - 1` a
/// prefix of the input and the last an ellipsis marker.
pub fn truncate_text(text: &str, max_len: usize) -> (r: String)
    requires
        max_len >= 1,
    ensures
        text@.len() <= max_len ==> r@ == text@,
        text@.len() > max_len ==> r@.len() == max_len && r@.subrange(0, max_len - 1)
            == text@.subrange(0, max_len - 1) && r@[max_len - 1] == '…',
{
    let n = text.unicode_len();
    if n <= max_len {
        String::from_str(text)
    } else {
        let prefix = text.substring_char(0, max_len - 1);
        let mut r = String::from_str(prefix);
        r.append("…");
        proof {
            reveal_strlit("…");
            assert(r@.subrange(0, max_len - 1) =~= text@.subrange(0, max_len - 1));
        }
        r
    }
}

} // verus!
