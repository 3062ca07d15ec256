use crate::constants::{MAX_NUMBER, MIN_NUMBER};
use crate::game::in_range;
use vstd::prelude::*;

verus! {

/// What a line of input turns out to be once trimmed and read as a number.
#[derive(Debug, Clone, Copy, PartialEq, Eq, Structural)]
pub enum GuessInput {
    /// A number inside the range: a guess.
    Valid(u32),
    /// A number outside the range.
    OutOfRange(u32),
    /// Not a number that fits in a `u32`.
    Invalid,
}

/// Whether `c` is one of the ASCII digits `0` to `9`.
pub open spec fn is_digit(c: char) -> bool {
    '0' <= c && c <= '9'
}

/// The value of the ASCII digit `c`.
pub open spec fn digit_value(c: char) -> nat {
    (c as u32 - '0' as u32) as nat
}

/// The value of a sequence of digits read in base ten (zero when empty).
pub open spec fn digits_value(s: Seq<char>) -> nat
    decreases s.len(),
{
    if s.len() == 0 {
        0
    } else {
        10 * digits_value(s.drop_last()) + digit_value(s.last())
    }
}

/// The digits of a number: the text without a leading `+`, if it has one.
pub open spec fn unsigned_digits(s: Seq<char>) -> Seq<char> {
    if s.len() > 0 && s[0] == '+' {
        s.drop_first()
    } else {
        s
    }
}

/// A whole number written in base ten with an optional leading `+`, when it
/// fits in a `u32`.
pub open spec fn parse_u32_spec(s: Seq<char>) -> Option<nat> {
    let d = unsigned_digits(s);
    if d.len() > 0 && (forall|i: int| 0 <= i < d.len() ==> is_digit(#[trigger] d[i]))
        && digits_value(d) <= u32::MAX {
        Some(digits_value(d))
    } else {
        None
    }
}

/// How a trimmed line of input is classified.
pub open spec fn classify_spec(s: Seq<char>) -> GuessInput {
    match parse_u32_spec(s) {
        None => GuessInput::Invalid,
        Some(v) => if in_range(v as int) {
            GuessInput::Valid(v as u32)
        } else {
            GuessInput::OutOfRange(v as u32)
        },
    }
}

/// The text that `str::trim` leaves of `s`.
pub uninterp spec fn trim_of(s: Seq<char>) -> Seq<char>;

/// Relies on `str::trim`: the text without its leading and trailing
/// whitespace, which depends on the characters alone.
#[verifier::external_body]
fn trim_text<'a>(s: &'a str) -> (r: &'a str)
    ensures
        r@ == trim_of(s@),
{
    s.trim()
}

/// Reads `s` as a whole number in base ten with an optional leading `+`;
/// `None` when it is not one or does not fit in a `u32`.
pub fn parse_u32(s: &str) -> (r: Option<u32>)
    ensures
        r is Some <==> parse_u32_spec(s@) is Some,
        r is Some ==> r->0 == parse_u32_spec(s@)->0,
{
    let n = s.unicode_len();
    let mut start: usize = 0;
    if n > 0 && s.get_char(0) == '+' {
        start = 1;
    }
    let ghost d = unsigned_digits(s@);
    assert(d =~= s@.subrange(start as int, n as int));
    if start == n {
        return None;
    }
    let mut acc: u64 = 0;
    let mut big = false;
    let mut i: usize = start;
    while i < n
        invariant
            start <= i <= n,
            n == s@.len(),
            d == s@.subrange(start as int, n as int),
            d == unsigned_digits(s@),
            forall|k: int| start <= k < i ==> is_digit(#[trigger] s@[k]),
            !big ==> acc == digits_value(s@.subrange(start as int, i as int)),
            !big ==> acc <= u32::MAX,
            big ==> digits_value(s@.subrange(start as int, i as int)) > u32::MAX,
        decreases n - i,
    {
        let c = s.get_char(i);
        if !('0' <= c && c <= '9') {
            proof {
                assert(d[i - start] == c);
                assert(!is_digit(d[i - start]));
            }
            return None;
        }
        let ghost prev = s@.subrange(start as int, i as int);
        let ghost next = s@.subrange(start as int, i + 1);
        assert(next.drop_last() =~= prev);
        assert(next.last() == c);
        if !big {
            let v = acc * 10 + (c as u32 - '0' as u32) as u64;
            if v > u32::MAX as u64 {
                big = true;
            } else {
                acc = v;
            }
        }
        i = i + 1;
    }
    assert(s@.subrange(start as int, n as int) == d);
    assert(forall|k: int| 0 <= k < d.len() ==> #[trigger] d[k] == s@[k + start]);
    if big {
        None
    } else {
        Some(acc as u32)
    }
}

/// Classifies an already trimmed line of input.
pub fn classify_guess(text: &str) -> (r: GuessInput)
    ensures
        r == classify_spec(text@),
{
    match parse_u32(text) {
        None => GuessInput::Invalid,
        Some(v) => if MIN_NUMBER <= v && v <= MAX_NUMBER {
            GuessInput::Valid(v)
        } else {
            GuessInput::OutOfRange(v)
        },
    }
}

/// Classifies a line of input as typed, surrounding whitespace included.
pub fn parse_guess(line: &str) -> (r: GuessInput)
    ensures
        r == classify_spec(trim_of(line@)),
{
    classify_guess(trim_text(line))
}

} // verus!
