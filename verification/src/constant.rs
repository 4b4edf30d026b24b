//! Constant-expression records: a tagged record read as one kind of
//! constant.
//!
//! | kind         | positions read                       | text form            |
//! |--------------|--------------------------------------|----------------------|
//! | integer      | tag 1: value, tag 2: integer kind    | the value            |
//! | narrow string| argument 0: index in the string table| `str(..)` or a count |
//! | wide string  | tags 1 and on: code units            | `wstr(..)`           |
//! | character    | argument 0: character code           | `wstr(..)`           |
//!
//! A record is never checked when it is made. An accessor that reads a
//! position which the record's kind does not have, or which the record is too
//! short to hold, fails with a layout error.

use crate::decimal::{int_text, isize_to_string, parse_isize, parse_isize_spec};
use crate::error::DecodeError;
use crate::join::{join_from, joined};
use crate::record::{RecordView, TaggedRecord};
use crate::render::{
    narrow_string_text, render_narrow_string, render_wide_string, wide_string_text,
};
use vstd::prelude::*;

verus! {

/// The kinds of constant.
#[derive(Clone, Copy, Debug, PartialEq, Eq, Structural)]
pub enum ConstKind {
    /// An integer, held as decimal text.
    Integer,
    /// A string of narrow characters, held in the dictionary's string table.
    NarrowString,
    /// A string of wide characters, held as the decimal text of its code
    /// units.
    WideString,
    /// A single character, held as its code.
    Character,
}

/// A record together with the kind of constant that it is read as.
#[derive(Clone, Debug)]
pub struct ConstantRecord {
    kind: ConstKind,
    record: TaggedRecord,
}

/// A constant record as plain values.
pub struct ConstantView {
    pub kind: ConstKind,
    pub record: RecordView,
}

/// A text result by the characters it holds.
pub open spec fn text_result(r: Result<String, DecodeError>) -> Result<Seq<char>, DecodeError> {
    match r {
        Ok(s) => Ok(s@),
        Err(e) => Err(e),
    }
}

/// A result of several texts by the characters they hold.
pub open spec fn texts_result(r: Result<Vec<String>, DecodeError>) -> Result<
    Seq<Seq<char>>,
    DecodeError,
> {
    match r {
        Ok(v) => Ok(v.deep_view()),
        Err(e) => Err(e),
    }
}

/// What a string table answered, by the characters of the string.
pub open spec fn found_text(found: Option<String>) -> Option<Seq<char>> {
    match found {
        Some(s) => Some(s@),
        None => None,
    }
}

impl ConstantView {
    /// The value of an integer constant: tag 1, read as a decimal integer.
    pub open spec fn intvalue(self) -> Result<isize, DecodeError> {
        if self.kind != ConstKind::Integer {
            Err(DecodeError::LayoutError)
        } else {
            match self.record.tag(1) {
                Ok(text) => match parse_isize_spec(text) {
                    Some(v) => Ok(v),
                    None => Err(DecodeError::ParseError),
                },
                Err(e) => Err(e),
            }
        }
    }

    /// The integer kind of an integer constant: tag 2 as it stands.
    pub open spec fn ikind(self) -> Result<Seq<char>, DecodeError> {
        if self.kind != ConstKind::Integer {
            Err(DecodeError::LayoutError)
        } else {
            self.record.tag(2)
        }
    }

    /// The code of a character constant: argument 0.
    pub open spec fn chrvalue(self) -> Result<isize, DecodeError> {
        if self.kind != ConstKind::Character {
            Err(DecodeError::LayoutError)
        } else {
            self.record.arg(0)
        }
    }

    /// The index of a narrow string in the string table: argument 0.
    pub open spec fn string_index(self) -> Result<isize, DecodeError> {
        if self.kind != ConstKind::NarrowString {
            Err(DecodeError::LayoutError)
        } else {
            self.record.arg(0)
        }
    }

    /// The value of a string constant. For a narrow string it is what the
    /// string table answered under the record's string index, `found`. For a
    /// wide string it is the tags from position 1 on, joined by `-`.
    pub open spec fn stringvalue(self, found: Option<Seq<char>>) -> Result<
        Seq<char>,
        DecodeError,
    > {
        match self.kind {
            ConstKind::NarrowString => match self.string_index() {
                Ok(_) => match found {
                    Some(s) => Ok(s),
                    None => Err(DecodeError::LookupError),
                },
                Err(e) => Err(e),
            },
            ConstKind::WideString => if self.record.tags.len() >= 1 {
                Ok(joined(self.record.tags.skip(1), "-"@))
            } else {
                Err(DecodeError::LayoutError)
            },
            _ => Err(DecodeError::LayoutError),
        }
    }

    /// The literal strings that the constant embeds: the value of a narrow
    /// string, and nothing for the other kinds.
    pub open spec fn get_strings(self, found: Option<Seq<char>>) -> Result<
        Seq<Seq<char>>,
        DecodeError,
    > {
        match self.kind {
            ConstKind::NarrowString => match self.stringvalue(found) {
                Ok(s) => Ok(seq![s]),
                Err(e) => Err(e),
            },
            _ => Ok(Seq::empty()),
        }
    }

    /// The text form of the constant.
    pub open spec fn rendering(self, found: Option<Seq<char>>) -> Result<Seq<char>, DecodeError> {
        match self.kind {
            ConstKind::Integer => match self.intvalue() {
                Ok(v) => Ok(int_text(v as int)),
                Err(e) => Err(e),
            },
            ConstKind::NarrowString => match self.stringvalue(found) {
                Ok(s) => Ok(narrow_string_text(s)),
                Err(e) => Err(e),
            },
            ConstKind::WideString => match self.stringvalue(found) {
                Ok(s) => Ok(wide_string_text(s)),
                Err(e) => Err(e),
            },
            ConstKind::Character => match self.chrvalue() {
                Ok(c) => Ok(wide_string_text(int_text(c as int))),
                Err(e) => Err(e),
            },
        }
    }

    /// Whether `found` is an answer that `lookup` can give for this record:
    /// one of its answers under the record's string index, and `None` for a
    /// record without a string index, for which the table is not asked.
    pub open spec fn answered<F: Fn(isize) -> Option<String>>(
        self,
        lookup: F,
        found: Option<String>,
    ) -> bool {
        match self.string_index() {
            Ok(i) => call_ensures(lookup, (i,), found),
            Err(_) => found is None,
        }
    }
}

impl View for ConstantRecord {
    type V = ConstantView;

    closed spec fn view(&self) -> ConstantView {
        ConstantView { kind: self.kind, record: self.record@ }
    }
}

impl ConstantRecord {
    /// Reads `record` as a constant of the given kind.
    pub fn new(kind: ConstKind, record: TaggedRecord) -> (r: ConstantRecord)
        ensures
            r@ == (ConstantView { kind, record: record@ }),
    {
        ConstantRecord { kind, record }
    }

    /// Reads `record` as an integer constant.
    pub fn integer(record: TaggedRecord) -> (r: ConstantRecord)
        ensures
            r@ == (ConstantView { kind: ConstKind::Integer, record: record@ }),
    {
        ConstantRecord { kind: ConstKind::Integer, record }
    }

    /// Reads `record` as a narrow string constant.
    pub fn narrow_string(record: TaggedRecord) -> (r: ConstantRecord)
        ensures
            r@ == (ConstantView { kind: ConstKind::NarrowString, record: record@ }),
    {
        ConstantRecord { kind: ConstKind::NarrowString, record }
    }

    /// Reads `record` as a wide string constant.
    pub fn wide_string(record: TaggedRecord) -> (r: ConstantRecord)
        ensures
            r@ == (ConstantView { kind: ConstKind::WideString, record: record@ }),
    {
        ConstantRecord { kind: ConstKind::WideString, record }
    }

    /// Reads `record` as a character constant.
    pub fn character(record: TaggedRecord) -> (r: ConstantRecord)
        ensures
            r@ == (ConstantView { kind: ConstKind::Character, record: record@ }),
    {
        ConstantRecord { kind: ConstKind::Character, record }
    }

    /// The kind that the record is read as.
    pub fn kind(&self) -> (k: ConstKind)
        ensures
            k == self@.kind,
    {
        self.kind
    }

    /// The record itself.
    pub fn record(&self) -> (r: &TaggedRecord)
        ensures
            r@ == self@.record,
    {
        &self.record
    }

    /// Whether this is an integer constant.
    pub fn is_int(&self) -> (b: bool)
        ensures
            b == (self@.kind == ConstKind::Integer),
    {
        matches!(self.kind, ConstKind::Integer)
    }

    /// Whether this is a narrow string constant.
    pub fn is_str(&self) -> (b: bool)
        ensures
            b == (self@.kind == ConstKind::NarrowString),
    {
        matches!(self.kind, ConstKind::NarrowString)
    }

    /// Whether this is a wide string constant.
    pub fn is_wstr(&self) -> (b: bool)
        ensures
            b == (self@.kind == ConstKind::WideString),
    {
        matches!(self.kind, ConstKind::WideString)
    }

    /// Whether this is a character constant.
    pub fn is_char(&self) -> (b: bool)
        ensures
            b == (self@.kind == ConstKind::Character),
    {
        matches!(self.kind, ConstKind::Character)
    }

    /// Holds of no kind. A character constant answers to `is_char`.
    pub fn is_chr(&self) -> (b: bool)
        ensures
            !b,
    {
        false
    }

    /// Whether this is a floating-point constant: no kind is.
    pub fn is_real(&self) -> (b: bool)
        ensures
            !b,
    {
        false
    }

    /// Whether this is an enumeration constant: no kind is.
    pub fn is_enum(&self) -> (b: bool)
        ensures
            !b,
    {
        false
    }

    /// The primary text of the record, tag 0: the text form of a constant
    /// whose kind has none of its own.
    pub fn default_str(&self) -> (r: Result<String, DecodeError>)
        ensures
            text_result(r) == self@.record.tag(0),
    {
        match self.record.tag(0) {
            Ok(t) => Ok(String::from_str(t)),
            Err(e) => Err(e),
        }
    }

    /// The value of an integer constant.
    pub fn intvalue(&self) -> (r: Result<isize, DecodeError>)
        ensures
            r == self@.intvalue(),
    {
        match self.kind {
            ConstKind::Integer => match self.record.tag(1) {
                Ok(text) => match parse_isize(text) {
                    Some(v) => Ok(v),
                    None => Err(DecodeError::ParseError),
                },
                Err(e) => Err(e),
            },
            _ => Err(DecodeError::LayoutError),
        }
    }

    /// The integer kind of an integer constant.
    pub fn ikind(&self) -> (r: Result<String, DecodeError>)
        ensures
            text_result(r) == self@.ikind(),
    {
        match self.kind {
            ConstKind::Integer => match self.record.tag(2) {
                Ok(t) => Ok(String::from_str(t)),
                Err(e) => Err(e),
            },
            _ => Err(DecodeError::LayoutError),
        }
    }

    /// The code of a character constant.
    pub fn chrvalue(&self) -> (r: Result<isize, DecodeError>)
        ensures
            r == self@.chrvalue(),
    {
        match self.kind {
            ConstKind::Character => self.record.arg(0),
            _ => Err(DecodeError::LayoutError),
        }
    }

    /// The index of a narrow string in the string table.
    pub fn string_index(&self) -> (r: Result<isize, DecodeError>)
        ensures
            r == self@.string_index(),
    {
        match self.kind {
            ConstKind::NarrowString => self.record.arg(0),
            _ => Err(DecodeError::LayoutError),
        }
    }

    /// The value of a string constant, given what the string table answered
    /// under the record's string index.
    pub fn stringvalue_with(&self, found: Option<String>) -> (r: Result<String, DecodeError>)
        ensures
            text_result(r) == self@.stringvalue(found_text(found)),
    {
        match self.kind {
            ConstKind::NarrowString => match self.record.arg(0) {
                Ok(_) => match found {
                    Some(s) => Ok(s),
                    None => Err(DecodeError::LookupError),
                },
                Err(e) => Err(e),
            },
            ConstKind::WideString => if self.record.tags.len() >= 1 {
                Ok(join_from(&self.record.tags, 1))
            } else {
                Err(DecodeError::LayoutError)
            },
            _ => Err(DecodeError::LayoutError),
        }
    }

    /// The literal strings that the constant embeds, given what the string
    /// table answered under the record's string index.
    pub fn get_strings_with(&self, found: Option<String>) -> (r: Result<Vec<String>, DecodeError>)
        ensures
            texts_result(r) == self@.get_strings(found_text(found)),
    {
        let mut strings: Vec<String> = Vec::new();
        match self.kind {
            ConstKind::NarrowString => match self.stringvalue_with(found) {
                Ok(s) => {
                    strings.push(s);
                    assert(strings.deep_view() =~= seq![s@]);
                    Ok(strings)
                },
                Err(e) => Err(e),
            },
            _ => {
                assert(strings.deep_view() =~= Seq::<Seq<char>>::empty());
                Ok(strings)
            },
        }
    }

    /// The text form of the constant, given what the string table answered
    /// under the record's string index.
    pub fn str_with(&self, found: Option<String>) -> (r: Result<String, DecodeError>)
        ensures
            text_result(r) == self@.rendering(found_text(found)),
    {
        match self.kind {
            ConstKind::Integer => match self.intvalue() {
                Ok(v) => Ok(isize_to_string(v)),
                Err(e) => Err(e),
            },
            ConstKind::NarrowString => match self.stringvalue_with(found) {
                Ok(s) => Ok(render_narrow_string(s.as_str())),
                Err(e) => Err(e),
            },
            ConstKind::WideString => match self.stringvalue_with(found) {
                Ok(s) => Ok(render_wide_string(s.as_str())),
                Err(e) => Err(e),
            },
            ConstKind::Character => match self.chrvalue() {
                Ok(c) => Ok(render_wide_string(isize_to_string(c).as_str())),
                Err(e) => Err(e),
            },
        }
    }

    /// Asks the string table for the string of a narrow string constant.
    /// The table is asked once, under the record's string index, and not at
    /// all where the record has none.
    pub fn find_string<F: Fn(isize) -> Option<String>>(&self, lookup: F) -> (found: Option<String>)
        requires
            self@.string_index() matches Ok(i) ==> call_requires(lookup, (i,)),
        ensures
            self@.answered(lookup, found),
    {
        match self.string_index() {
            Ok(i) => lookup(i),
            Err(_) => None,
        }
    }

    /// The value of a string constant. `lookup` stands for the string table
    /// of the dictionary that owns the record: it answers `None` under an
    /// index that the table does not have.
    pub fn stringvalue<F: Fn(isize) -> Option<String>>(&self, lookup: F) -> (r: Result<
        String,
        DecodeError,
    >)
        requires
            self@.string_index() matches Ok(i) ==> call_requires(lookup, (i,)),
        ensures
            exists|found: Option<String>| #[trigger]
                self@.answered(lookup, found) && text_result(r) == self@.stringvalue(
                    found_text(found),
                ),
    {
        let found = self.find_string(lookup);
        self.stringvalue_with(found)
    }

    /// The literal strings that the constant embeds.
    pub fn get_strings<F: Fn(isize) -> Option<String>>(&self, lookup: F) -> (r: Result<
        Vec<String>,
        DecodeError,
    >)
        requires
            self@.string_index() matches Ok(i) ==> call_requires(lookup, (i,)),
        ensures
            exists|found: Option<String>| #[trigger]
                self@.answered(lookup, found) && texts_result(r) == self@.get_strings(
                    found_text(found),
                ),
    {
        let found = self.find_string(lookup);
        self.get_strings_with(found)
    }

    /// The text form of the constant.
    pub fn str<F: Fn(isize) -> Option<String>>(&self, lookup: F) -> (r: Result<
        String,
        DecodeError,
    >)
        requires
            self@.string_index() matches Ok(i) ==> call_requires(lookup, (i,)),
        ensures
            exists|found: Option<String>| #[trigger]
                self@.answered(lookup, found) && text_result(r) == self@.rendering(
                    found_text(found),
                ),
    {
        let found = self.find_string(lookup);
        self.str_with(found)
    }
}

} // verus!
