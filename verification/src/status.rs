//! A ready status type: `u16` application codes read from their plain
//! decimal form, with typed parse-error information of the library's own.

use vstd::prelude::*;
use vstd::string::StrSliceExecFns;

use crate::FromCode;

verus! {

/// Why a short string is not a decimal `u16` application code: it is empty,
/// it holds a character that is no digit, or its value does not fit.
#[derive(Clone, Copy, Debug, PartialEq, Eq, Structural)]
pub enum CodeParseError {
    Empty,
    NotADigit,
    Overflow,
}

/// Whether a character is a decimal digit.
pub open spec fn is_decimal_digit(c: char) -> bool {
    ('0' as u32) <= (c as u32) && (c as u32) <= ('9' as u32)
}

/// The value of a decimal digit.
pub open spec fn digit_value(c: char) -> int {
    (c as u32) - ('0' as u32)
}

/// The value of a decimal numeral, most significant digit first.
pub open spec fn decimal_value(s: Seq<char>) -> int
    decreases s.len(),
{
    if s.len() == 0 {
        0
    } else {
        10 * decimal_value(s.drop_last()) + digit_value(s.last())
    }
}

/// Whether a text is a decimal numeral at all: non-empty, digits throughout.
pub open spec fn is_decimal_numeral(s: Seq<char>) -> bool {
    s.len() > 0 && forall|i: int| 0 <= i < s.len() ==> is_decimal_digit(#[trigger] s[i])
}

proof fn lemma_decimal_value_nonneg(s: Seq<char>)
    requires
        forall|i: int| 0 <= i < s.len() ==> is_decimal_digit(#[trigger] s[i]),
    ensures
        decimal_value(s) >= 0,
    decreases s.len(),
{
    if s.len() > 0 {
        lemma_decimal_value_nonneg(s.drop_last());
    }
}

/// Reads a `u16` from its decimal form: exactly the non-empty all-digit
/// strings whose value fits are accepted, and each rejection says which of
/// the three conditions failed.
pub fn parse_decimal_code(s: &str) -> (r: Result<u16, CodeParseError>)
    ensures
        r is Ok <==> is_decimal_numeral(s@) && decimal_value(s@) <= u16::MAX as int,
        r matches Ok(v) ==> v as int == decimal_value(s@),
        r matches Err(e) ==> match e {
            CodeParseError::Empty => s@.len() == 0,
            CodeParseError::NotADigit => s@.len() > 0 && exists|i: int|
                0 <= i < s@.len() && !is_decimal_digit(#[trigger] s@[i]),
            CodeParseError::Overflow => is_decimal_numeral(s@) && decimal_value(s@) > u16::MAX
                as int,
        },
{
    let n = s.unicode_len();
    if n == 0 {
        return Err(CodeParseError::Empty);
    }
    let mut val: u32 = 0;
    let mut i: usize = 0;
    while i < n
        invariant
            0 < n == s@.len(),
            i <= n,
            forall|j: int| 0 <= j < i ==> is_decimal_digit(#[trigger] s@[j]),
            decimal_value(s@.take(i as int)) <= u16::MAX as int ==> val == decimal_value(
                s@.take(i as int),
            ),
            decimal_value(s@.take(i as int)) > u16::MAX as int ==> val > u16::MAX as u32,
            val <= 66000,
        decreases n - i,
    {
        let c = s.get_char(i);
        let cu = c as u32;
        if cu < ('0' as u32) || cu > ('9' as u32) {
            return Err(CodeParseError::NotADigit);
        }
        let d: u32 = cu - ('0' as u32);
        proof {
            assert(s@.take(i + 1 as int).drop_last() =~= s@.take(i as int));
            assert(s@.take(i + 1 as int).last() == s@[i as int]);
            lemma_decimal_value_nonneg(s@.take(i as int));
        }
        let mut next: u32 = val * 10 + d;
        if next > 65535 {
            next = 66000;
        }
        val = next;
        i = i + 1;
    }
    proof {
        assert(s@.take(n as int) =~= s@);
    }
    if val > 65535 {
        return Err(CodeParseError::Overflow);
    }
    Ok(val as u16)
}

impl FromCode for u16 {
    type Err = CodeParseError;

    /// The non-empty all-digit strings whose value fits a `u16`.
    open spec fn spec_parses(s: Seq<char>) -> bool {
        is_decimal_numeral(s) && decimal_value(s) <= u16::MAX as int
    }

    fn from_code(s: &str) -> (r: Result<u16, CodeParseError>) {
        parse_decimal_code(s)
    }
}

} // verus!
