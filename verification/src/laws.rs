//! What holds of every constant record.

use crate::constant::{found_text, text_result, texts_result, ConstKind, ConstantRecord, ConstantView};
use crate::decimal::{lemma_int_text_parses, parse_isize_spec};
use crate::error::DecodeError;
use vstd::prelude::*;

verus! {

/// A record answers to exactly one of `is_int`, `is_str`, `is_wstr` and
/// `is_char`, the one of its kind, and to none of `is_chr`, `is_real` and
/// `is_enum`.
pub proof fn lemma_one_predicate_per_kind(
    c: &ConstantRecord,
    is_int: bool,
    is_str: bool,
    is_wstr: bool,
    is_char: bool,
    is_chr: bool,
    is_real: bool,
    is_enum: bool,
)
    requires
        call_ensures(ConstantRecord::is_int, (c,), is_int),
        call_ensures(ConstantRecord::is_str, (c,), is_str),
        call_ensures(ConstantRecord::is_wstr, (c,), is_wstr),
        call_ensures(ConstantRecord::is_char, (c,), is_char),
        call_ensures(ConstantRecord::is_chr, (c,), is_chr),
        call_ensures(ConstantRecord::is_real, (c,), is_real),
        call_ensures(ConstantRecord::is_enum, (c,), is_enum),
    ensures
        is_int <==> c@.kind == ConstKind::Integer,
        is_str <==> c@.kind == ConstKind::NarrowString,
        is_wstr <==> c@.kind == ConstKind::WideString,
        is_char <==> c@.kind == ConstKind::Character,
        !is_chr && !is_real && !is_enum,
        (if is_int { 1int } else { 0 }) + (if is_str { 1int } else { 0 }) + (if is_wstr { 1int } else { 0 })
            + (if is_char { 1int } else { 0 }) == 1,
{
}

/// Calling an accessor again on the same record gives the same result: no
/// call changes what a later one returns.
pub proof fn lemma_accessors_repeatable(c: &ConstantRecord)
    ensures
        forall|a: Result<isize, DecodeError>, b: Result<isize, DecodeError>|
            call_ensures(ConstantRecord::intvalue, (c,), a) && call_ensures(
                ConstantRecord::intvalue,
                (c,),
                b,
            ) ==> a == b,
        forall|a: Result<String, DecodeError>, b: Result<String, DecodeError>|
            call_ensures(ConstantRecord::ikind, (c,), a) && call_ensures(
                ConstantRecord::ikind,
                (c,),
                b,
            ) ==> text_result(a) == text_result(b),
        forall|a: Result<isize, DecodeError>, b: Result<isize, DecodeError>|
            call_ensures(ConstantRecord::chrvalue, (c,), a) && call_ensures(
                ConstantRecord::chrvalue,
                (c,),
                b,
            ) ==> a == b,
        forall|a: Result<isize, DecodeError>, b: Result<isize, DecodeError>|
            call_ensures(ConstantRecord::string_index, (c,), a) && call_ensures(
                ConstantRecord::string_index,
                (c,),
                b,
            ) ==> a == b,
        forall|a: Result<String, DecodeError>, b: Result<String, DecodeError>|
            call_ensures(ConstantRecord::default_str, (c,), a) && call_ensures(
                ConstantRecord::default_str,
                (c,),
                b,
            ) ==> text_result(a) == text_result(b),
{
}

/// With the same answer of the string table, the accessors that depend on
/// it give the same result again.
pub proof fn lemma_resolved_accessors_repeatable(
    c: &ConstantRecord,
    found: Option<String>,
    again: Option<String>,
)
    requires
        found_text(found) == found_text(again),
    ensures
        forall|a: Result<String, DecodeError>, b: Result<String, DecodeError>|
            call_ensures(ConstantRecord::stringvalue_with, (c, found), a) && call_ensures(
                ConstantRecord::stringvalue_with,
                (c, again),
                b,
            ) ==> text_result(a) == text_result(b),
        forall|a: Result<Vec<String>, DecodeError>, b: Result<Vec<String>, DecodeError>|
            call_ensures(ConstantRecord::get_strings_with, (c, found), a) && call_ensures(
                ConstantRecord::get_strings_with,
                (c, again),
                b,
            ) ==> texts_result(a) == texts_result(b),
        forall|a: Result<String, DecodeError>, b: Result<String, DecodeError>|
            call_ensures(ConstantRecord::str_with, (c, found), a) && call_ensures(
                ConstantRecord::str_with,
                (c, again),
                b,
            ) ==> text_result(a) == text_result(b),
{
}

/// Whether the string table behind `lookup` answers each index in one way
/// only.
pub open spec fn steady<F: Fn(isize) -> Option<String>>(lookup: F) -> bool {
    forall|i: isize, x: Option<String>, y: Option<String>|
        call_ensures(lookup, (i,), x) && call_ensures(lookup, (i,), y) ==> found_text(x)
            == found_text(y)
}

/// While the string table answers each index in one way only, the value,
/// the embedded strings and the text form of a record are the same at every
/// call.
pub proof fn lemma_lookups_repeatable<F: Fn(isize) -> Option<String>>(
    c: &ConstantRecord,
    lookup: F,
)
    requires
        steady(lookup),
    ensures
        forall|a: Result<String, DecodeError>, b: Result<String, DecodeError>|
            call_ensures(ConstantRecord::stringvalue::<F>, (c, lookup), a) && call_ensures(
                ConstantRecord::stringvalue::<F>,
                (c, lookup),
                b,
            ) ==> text_result(a) == text_result(b),
        forall|a: Result<Vec<String>, DecodeError>, b: Result<Vec<String>, DecodeError>|
            call_ensures(ConstantRecord::get_strings::<F>, (c, lookup), a) && call_ensures(
                ConstantRecord::get_strings::<F>,
                (c, lookup),
                b,
            ) ==> texts_result(a) == texts_result(b),
        forall|a: Result<String, DecodeError>, b: Result<String, DecodeError>|
            call_ensures(ConstantRecord::str::<F>, (c, lookup), a) && call_ensures(
                ConstantRecord::str::<F>,
                (c, lookup),
                b,
            ) ==> text_result(a) == text_result(b),
{
}

/// The positions that the text form of a constant is made from: for an
/// integer tag 1, for a narrow string and for a character argument 0, for a
/// wide string the tags behind tag 0 and whether there is a tag 0.
pub open spec fn same_rendered_positions(a: ConstantView, b: ConstantView) -> bool {
    &&& a.kind == b.kind
    &&& match a.kind {
        ConstKind::Integer => a.record.tag(1) == b.record.tag(1),
        ConstKind::NarrowString => a.record.arg(0) == b.record.arg(0),
        ConstKind::WideString => (a.record.tag(0) is Ok) == (b.record.tag(0) is Ok)
            && a.record.tags.skip(1) == b.record.tags.skip(1),
        ConstKind::Character => a.record.arg(0) == b.record.arg(0),
    }
}

/// The text form reads no position but those of the record's kind: two
/// records of one kind that agree there have the same text form, whatever
/// else they hold.
pub proof fn lemma_rendering_reads_its_positions(
    a: ConstantView,
    b: ConstantView,
    found: Option<Seq<char>>,
)
    requires
        same_rendered_positions(a, b),
    ensures
        a.rendering(found) == b.rendering(found),
{
}

/// Rendering fails with a layout error on the records that are too short for
/// their kind, and on no others: an integer needs two tags, a wide string one
/// tag, a narrow string and a character one argument.
pub proof fn lemma_rendering_layout(c: ConstantView, found: Option<Seq<char>>)
    ensures
        c.rendering(found) == Err::<Seq<char>, DecodeError>(DecodeError::LayoutError) <==> match c.kind {
            ConstKind::Integer => c.record.tags.len() < 2,
            ConstKind::NarrowString => c.record.args.len() < 1,
            ConstKind::WideString => c.record.tags.len() < 1,
            ConstKind::Character => c.record.args.len() < 1,
        },
{
}

/// The text form of an integer constant denotes the constant's value.
pub proof fn lemma_integer_rendering_parses(c: ConstantView, found: Option<Seq<char>>)
    requires
        c.kind == ConstKind::Integer,
    ensures
        match c.rendering(found) {
            Ok(text) => c.intvalue() is Ok && parse_isize_spec(text) == Some(c.intvalue()->Ok_0),
            Err(e) => c.intvalue() == Err::<isize, DecodeError>(e),
        },
{
    if let Ok(v) = c.intvalue() {
        lemma_int_text_parses(v as int);
    }
}

} // verus!
