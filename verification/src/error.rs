//! Failures of decoding a constant record.

use vstd::prelude::*;

verus! {

/// Why an accessor could not decode a record.
#[derive(Clone, Copy, Debug, PartialEq, Eq, Structural)]
pub enum DecodeError {
    /// A tag or argument position that the accessor reads is not part of the
    /// record's layout.
    LayoutError,
    /// A tag that should hold a decimal integer does not.
    ParseError,
    /// The string table has no entry under the index that the record holds.
    LookupError,
}

} // verus!
