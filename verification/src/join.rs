//! Joining strings with a separator.

use itertools::Itertools;
use vstd::prelude::*;
use vstd::slice::slice_subrange;
use vstd::string::*;

verus! {

/// The strings of `parts` in order, with `sep` between each two neighbours
/// and nothing before the first or behind the last.
pub open spec fn joined(parts: Seq<Seq<char>>, sep: Seq<char>) -> Seq<char>
    decreases parts.len(),
{
    if parts.len() == 0 {
        Seq::empty()
    } else if parts.len() == 1 {
        parts[0]
    } else {
        joined(parts.drop_last(), sep) + sep + parts.last()
    }
}

/// `itertools::Itertools::join` on the strings of a slice. It writes the
/// first string, then for each further one the separator and that string, and
/// gives the empty string for an empty slice. It reserves room for one
/// separator of each further string before it starts, which is why the
/// separator is held to at most one byte here: the room then is less than the
/// slice is long.
#[verifier::external_body]
fn join_strings(parts: &[String], sep: &str) -> (r: String)
    requires
        sep.spec_bytes().len() <= 1,
    ensures
        r@ == joined(parts.deep_view(), sep@),
{
    parts.iter().join(sep)
}

/// The strings of `parts` from position `from` on, joined by `-`. With
/// `from` at the end of `parts` this is the empty string.
pub fn join_from(parts: &Vec<String>, from: usize) -> (r: String)
    requires
        from <= parts.len(),
    ensures
        r@ == joined(parts.deep_view().skip(from as int), "-"@),
{
    let rest = slice_subrange(parts.as_slice(), from, parts.len());
    proof {
        reveal_strlit("-");
        vstd::string::is_ascii_spec_bytes("-");
        assert(rest.deep_view() =~= parts.deep_view().skip(from as int));
    }
    join_strings(rest, "-")
}

} // verus!
