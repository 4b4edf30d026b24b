//! Decimal integer text: which integer a string denotes, and the text of an
//! integer.
//!
//! A string denotes an integer when it is an optional sign, `+` or `-`,
//! followed by one or more of the digits `0` to `9` and nothing else. The text
//! of an integer is its shortest such string: no `+`, no leading zero.

use vstd::prelude::*;
use vstd::string::*;

verus! {

/// The ten digits, in order of their value.
pub const DIGITS: &'static str = "0123456789";

/// Whether `c` is one of the digits `0` to `9`.
pub open spec fn is_digit(c: char) -> bool {
    '0' <= c && c <= '9'
}

/// The value of the digit `c`.
pub open spec fn digit_value(c: char) -> nat
    recommends
        is_digit(c),
{
    (c as int - '0' as int) as nat
}

/// The digit whose value is `d`.
pub open spec fn digit_char(d: nat) -> char
    recommends
        d < 10,
{
    ('0' as int + d) as char
}

/// Whether `s` holds digits only.
pub open spec fn all_digits(s: Seq<char>) -> bool {
    forall|i: int| 0 <= i < s.len() ==> is_digit(#[trigger] s[i])
}

/// The number that the digits of `s` denote, the first digit weighing most.
pub open spec fn digits_value(s: Seq<char>) -> nat
    decreases s.len(),
{
    if s.len() == 0 {
        0
    } else {
        10 * digits_value(s.drop_last()) + digit_value(s.last())
    }
}

/// Whether `s` begins with a sign.
pub open spec fn has_sign(s: Seq<char>) -> bool {
    s.len() > 0 && (s[0] == '+' || s[0] == '-')
}

/// The part of `s` behind its sign, all of `s` where it has none.
pub open spec fn magnitude_part(s: Seq<char>) -> Seq<char> {
    if has_sign(s) {
        s.skip(1)
    } else {
        s
    }
}

/// The integer that `s` denotes, `None` where it denotes none.
pub open spec fn parse_int(s: Seq<char>) -> Option<int> {
    let body = magnitude_part(s);
    if body.len() == 0 || !all_digits(body) {
        None
    } else if s[0] == '-' {
        Some(-(digits_value(body) as int))
    } else {
        Some(digits_value(body) as int)
    }
}

/// The `isize` that `s` denotes: `None` where `s` denotes no integer, and
/// where the integer does not fit.
pub open spec fn parse_isize_spec(s: Seq<char>) -> Option<isize> {
    match parse_int(s) {
        Some(v) => if isize::MIN <= v <= isize::MAX {
            Some(v as isize)
        } else {
            None
        },
        None => None,
    }
}

/// The text of the natural number `n`.
pub open spec fn nat_text(n: nat) -> Seq<char>
    decreases n,
{
    if n < 10 {
        seq![digit_char(n)]
    } else {
        nat_text(n / 10).push(digit_char(n % 10))
    }
}

/// The text of the integer `v`.
pub open spec fn int_text(v: int) -> Seq<char> {
    if v < 0 {
        seq!['-'] + nat_text((-v) as nat)
    } else {
        nat_text(v as nat)
    }
}

/// A longer string of digits denotes no smaller a number.
pub proof fn lemma_digits_value_prefix(s: Seq<char>, k: int)
    requires
        0 <= k <= s.len(),
    ensures
        digits_value(s.take(k)) <= digits_value(s),
    decreases s.len() - k,
{
    if k == s.len() {
        assert(s.take(k) =~= s);
    } else {
        lemma_digits_value_prefix(s, k + 1);
        assert(s.take(k + 1).drop_last() =~= s.take(k));
    }
}

/// A string with a character outside ASCII denotes no integer.
proof fn lemma_not_ascii_not_int(s: Seq<char>)
    requires
        !vstd::utf8::is_ascii_chars(s),
    ensures
        parse_int(s) is None,
{
    let i = choose|i: int| 0 <= i < s.len() && !('\0' <= #[trigger] s[i] <= '\u{7f}');
    let body = magnitude_part(s);
    if has_sign(s) {
        assert(i > 0);
        assert(body[i - 1] == s[i]);
        assert(!is_digit(body[i - 1]));
    } else {
        assert(!is_digit(body[i]));
    }
}

/// Parses `s` as an `isize`: an optional sign, then digits only.
pub fn parse_isize(s: &str) -> (r: Option<isize>)
    ensures
        r == parse_isize_spec(s@),
{
    if !s.is_ascii() {
        proof {
            lemma_not_ascii_not_int(s@);
        }
        return None;
    }
    broadcast use vstd::string::is_ascii_spec_bytes;

    let bytes: &[u8] = s.as_bytes();
    let n: usize = bytes.len();
    assert(n == s@.len());
    if n == 0 {
        return None;
    }
    let first: u8 = bytes[0];
    let negative: bool = first == 45u8;
    let start: usize = if first == 45u8 || first == 43u8 {
        1
    } else {
        0
    };
    let ghost body = magnitude_part(s@);
    assert(body =~= s@.skip(start as int));
    if start == n {
        return None;
    }
    let limit: i128 = if negative {
        -(isize::MIN as i128)
    } else {
        isize::MAX as i128
    };
    let mut acc: i128 = 0;
    let mut i: usize = start;
    while i < n
        invariant
            n == s@.len(),
            bytes@.len() == n,
            forall|j: int| 0 <= j < n ==> bytes@[j] == #[trigger] s@[j] as u8,
            forall|j: int| 0 <= j < n ==> '\0' <= #[trigger] s@[j] <= '\u{7f}',
            start <= i <= n,
            body == magnitude_part(s@),
            body == s@.skip(start as int),
            all_digits(body.take(i - start)),
            acc == digits_value(body.take(i - start)),
            0 <= acc <= limit,
            negative <==> s@[0] == '-',
            limit == if negative {
                -(isize::MIN as int)
            } else {
                isize::MAX as int
            },
        decreases n - i,
    {
        let b: u8 = bytes[i];
        assert(body[i - start] == s@[i as int]);
        assert(body.take(i - start + 1).drop_last() =~= body.take(i - start));
        assert(body.take(i - start + 1).last() == s@[i as int]);
        if b < 48u8 || b > 57u8 {
            assert(!is_digit(body[i - start]));
            return None;
        }
        assert(is_digit(s@[i as int]));
        let d: i128 = (b - 48u8) as i128;
        assert(d == digit_value(s@[i as int]));
        let next: i128 = acc * 10 + d;
        assert(next == digits_value(body.take(i - start + 1)));
        if next > limit {
            proof {
                lemma_digits_value_prefix(body, i - start + 1);
            }
            return None;
        }
        assert forall|j: int| 0 <= j < i - start + 1 implies is_digit(
            #[trigger] body.take(i - start + 1)[j],
        ) by {
            if j < i - start {
                assert(body.take(i - start + 1)[j] == body.take(i - start)[j]);
            }
        }
        acc = next;
        i = i + 1;
    }
    assert(body.take(n - start) =~= body);
    if negative {
        Some((-acc) as isize)
    } else {
        Some(acc as isize)
    }
}

/// The digit of value `d`, as a string of one character.
fn digit_str(d: u8) -> (r: &'static str)
    requires
        d < 10,
    ensures
        r@ == seq![digit_char(d as nat)],
{
    proof {
        reveal_strlit("0123456789");
    }
    let r = DIGITS.substring_ascii(d as usize, d as usize + 1);
    assert(r@ =~= seq![digit_char(d as nat)]);
    r
}

/// The text of `n`.
pub fn u64_to_string(n: u64) -> (r: String)
    ensures
        r@ == nat_text(n as nat),
    decreases n,
{
    if n < 10 {
        String::from_str(digit_str(n as u8))
    } else {
        let mut r = u64_to_string(n / 10);
        r.append(digit_str((n % 10) as u8));
        r
    }
}

/// The text of `n`.
pub fn usize_to_string(n: usize) -> (r: String)
    ensures
        r@ == nat_text(n as nat),
{
    u64_to_string(n as u64)
}

/// The text of `v`.
pub fn isize_to_string(v: isize) -> (r: String)
    ensures
        r@ == int_text(v as int),
{
    if v < 0 {
        let magnitude: u64 = (-(v as i128)) as u64;
        let mut r = String::from_str("-");
        proof {
            reveal_strlit("-");
        }
        r.append(u64_to_string(magnitude).as_str());
        assert(r@ =~= seq!['-'] + nat_text((-v) as nat));
        r
    } else {
        u64_to_string(v as u64)
    }
}

/// The digits of `nat_text(n)` are digits, at least one, and denote `n`.
pub proof fn lemma_nat_text_digits(n: nat)
    ensures
        nat_text(n).len() > 0,
        all_digits(nat_text(n)),
        digits_value(nat_text(n)) == n,
    decreases n,
{
    if n < 10 {
        assert(nat_text(n).drop_last() =~= Seq::<char>::empty());
        assert(digits_value(nat_text(n).drop_last()) == 0);
    } else {
        lemma_nat_text_digits(n / 10);
        assert(nat_text(n).drop_last() =~= nat_text(n / 10));
    }
}

/// The text of an integer denotes that integer.
pub proof fn lemma_int_text_parses(v: int)
    ensures
        parse_int(int_text(v)) == Some(v),
{
    if v < 0 {
        lemma_nat_text_digits((-v) as nat);
        assert(int_text(v).skip(1) =~= nat_text((-v) as nat));
    } else {
        lemma_nat_text_digits(v as nat);
    }
}

} // verus!
