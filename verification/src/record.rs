//! The positional payload of a dictionary entry: tags and arguments.

use crate::error::DecodeError;
use vstd::prelude::*;

verus! {

/// What a dictionary holds under one index: text tags and integer arguments,
/// each in a fixed order. What a position means depends on the kind of
/// constant that the entry is read as.
#[derive(Clone, Debug)]
pub struct TaggedRecord {
    /// The index of the entry in its dictionary.
    pub index: isize,
    /// The tags. Position 0 is the primary text of the entry.
    pub tags: Vec<String>,
    /// The arguments.
    pub args: Vec<isize>,
}

/// A record as plain values.
pub struct RecordView {
    pub index: isize,
    pub tags: Seq<Seq<char>>,
    pub args: Seq<isize>,
}

impl RecordView {
    /// The tag at position `i`; a layout error where the record has none.
    pub open spec fn tag(self, i: int) -> Result<Seq<char>, DecodeError> {
        if 0 <= i < self.tags.len() {
            Ok(self.tags[i])
        } else {
            Err(DecodeError::LayoutError)
        }
    }

    /// The argument at position `i`; a layout error where the record has
    /// none.
    pub open spec fn arg(self, i: int) -> Result<isize, DecodeError> {
        if 0 <= i < self.args.len() {
            Ok(self.args[i])
        } else {
            Err(DecodeError::LayoutError)
        }
    }
}

impl View for TaggedRecord {
    type V = RecordView;

    open spec fn view(&self) -> RecordView {
        RecordView { index: self.index, tags: self.tags.deep_view(), args: self.args@ }
    }
}

impl TaggedRecord {
    /// A record of the given tags and arguments. Nothing is asked of their
    /// number: a record that is too short for its kind shows when it is read.
    pub fn new(index: isize, tags: Vec<String>, args: Vec<isize>) -> (r: TaggedRecord)
        ensures
            r@ == (RecordView { index, tags: tags.deep_view(), args: args@ }),
    {
        TaggedRecord { index, tags, args }
    }

    /// The tag at position `i`.
    pub fn tag(&self, i: usize) -> (r: Result<&str, DecodeError>)
        ensures
            match r {
                Ok(t) => self@.tag(i as int) == Ok::<Seq<char>, DecodeError>(t@),
                Err(e) => self@.tag(i as int) == Err::<Seq<char>, DecodeError>(e),
            },
    {
        if i < self.tags.len() {
            Ok(self.tags[i].as_str())
        } else {
            Err(DecodeError::LayoutError)
        }
    }

    /// The argument at position `i`.
    pub fn arg(&self, i: usize) -> (r: Result<isize, DecodeError>)
        ensures
            r == self@.arg(i as int),
    {
        if i < self.args.len() {
            Ok(self.args[i])
        } else {
            Err(DecodeError::LayoutError)
        }
    }
}

} // verus!
