//! The text forms of string constants.

use crate::decimal::{nat_text, usize_to_string};
use vstd::prelude::*;
use vstd::string::*;

verus! {

/// The longest narrow string, in characters, that is rendered with its text.
pub const NARROW_STRING_LIMIT: usize = 25;

/// The text form of a narrow string: `str(..)` around the string itself, or,
/// for one of more than 25 characters, its number of characters followed by
/// `-char string`.
pub open spec fn narrow_string_text(value: Seq<char>) -> Seq<char> {
    if value.len() > NARROW_STRING_LIMIT {
        nat_text(value.len()) + "-char string"@
    } else {
        "str("@ + value + ")"@
    }
}

/// The text form of a wide string: `wstr(..)` around `value`.
pub open spec fn wide_string_text(value: Seq<char>) -> Seq<char> {
    "wstr("@ + value + ")"@
}

/// Renders a narrow string.
pub fn render_narrow_string(value: &str) -> (r: String)
    ensures
        r@ == narrow_string_text(value@),
{
    let count: usize = value.unicode_len();
    if count > NARROW_STRING_LIMIT {
        let mut r = usize_to_string(count);
        r.append("-char string");
        r
    } else {
        let mut r = String::from_str("str(");
        r.append(value);
        r.append(")");
        r
    }
}

/// Renders a wide string from its joined code units.
pub fn render_wide_string(value: &str) -> (r: String)
    ensures
        r@ == wide_string_text(value@),
{
    let mut r = String::from_str("wstr(");
    r.append(value);
    r.append(")");
    r
}

} // verus!
