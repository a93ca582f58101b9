//! Inference of a typed argument from a command-line token.
//!
//! Rules, first match wins:
//! 1. a base-10 `i32` literal (optional sign, no whitespace) gives `Int32`;
//! 2. a token that reads as a 32-bit float gives `Float32`, unless reading it
//!    at 32 bits leaves the range of `f32` while reading it at 64 bits does
//!    not (it overflows to an infinity, or underflows to zero from a non-zero
//!    value): then it gives `Float64`;
//! 3. a token that reads only as a 64-bit float gives `Float64`;
//! 4. `true` or `t` in any ASCII case gives `Int32(1)`, `false` or `f` gives
//!    `Int32(0)`;
//! 5. anything else is kept verbatim as `Str`.
//!
//! Reading a token as a float is done by the caller (std's `parse::<f32>` and
//! `parse::<f64>`, then `to_bits`), which hands in the bit patterns.
use vstd::prelude::*;
use vstd::string::{StrSliceExecFns, StringExecFns};
use crate::argument::{is_supported, tag_of, Argument, ArgumentModel};

verus! {

/// What reading a token as a float gave: the bit pattern of the `f32` and of
/// the `f64` value, or `None` where the token is no float literal.
#[derive(Clone, Copy, Debug, PartialEq, Eq)]
pub struct FloatReadings {
    pub single: Option<u32>,
    pub double: Option<u64>,
}

pub open spec fn is_ascii_digit(c: char) -> bool {
    '0' <= c && c <= '9'
}

/// Value of a non-empty run of ASCII digits.
pub open spec fn digits_value(s: Seq<char>) -> int
    decreases s.len(),
{
    if s.len() == 0 {
        0
    } else {
        digits_value(s.drop_last()) * 10 + (s.last() as int - '0' as int)
    }
}

/// The `i32` that `s` spells in base 10: an optional `+` or `-`, then one
/// or more ASCII digits, with a value in range.
pub open spec fn i32_literal(s: Seq<char>) -> Option<i32> {
    let signed = s.len() > 0 && (s[0] == '-' || s[0] == '+');
    let body = if signed { s.drop_first() } else { s };
    let magnitude = digits_value(body);
    let v = if signed && s[0] == '-' { -magnitude } else { magnitude };
    if body.len() > 0 && (forall|i: int| 0 <= i < body.len() ==> is_ascii_digit(#[trigger] body[i]))
        && i32::MIN <= v <= i32::MAX {
        Some(v as i32)
    } else {
        None
    }
}

/// Relies on std's `str::parse::<i32>` (`FromStr for i32`): an optional
/// sign followed by ASCII digits whose value fits in `i32`; anything else,
/// whitespace included, is an error.
#[verifier::external_body]
fn parse_i32(s: &str) -> (r: Option<i32>)
    ensures
        r == i32_literal(s@),
{
    s.parse::<i32>().ok()
}

pub open spec fn f32_bits_infinite(b: u32) -> bool {
    b & 0x7fff_ffff == 0x7f80_0000
}

pub open spec fn f32_bits_zero(b: u32) -> bool {
    b & 0x7fff_ffff == 0
}

pub open spec fn f64_bits_finite(b: u64) -> bool {
    b & 0x7ff0_0000_0000_0000 != 0x7ff0_0000_0000_0000
}

pub open spec fn f64_bits_zero(b: u64) -> bool {
    b & 0x7fff_ffff_ffff_ffff == 0
}

/// The 32-bit reading fell outside `f32`'s range where the 64-bit one did not.
pub open spec fn beyond_single_range(single: u32, double: u64) -> bool {
    f64_bits_finite(double) && (f32_bits_infinite(single) || (f32_bits_zero(single)
        && !f64_bits_zero(double)))
}

/// ASCII lower case of a character, as a code point.
pub open spec fn ascii_lower(c: char) -> u32 {
    if 'A' <= c && c <= 'Z' {
        (c as u32 + 32) as u32
    } else {
        c as u32
    }
}

/// `s` equals `word` when ASCII letters are compared without case.
pub open spec fn equals_ignoring_case(s: Seq<char>, word: Seq<char>) -> bool {
    s.len() == word.len() && forall|i: int|
        0 <= i < s.len() ==> #[trigger] ascii_lower(s[i]) == ascii_lower(word[i])
}

pub open spec fn is_true_word(s: Seq<char>) -> bool {
    equals_ignoring_case(s, seq!['t', 'r', 'u', 'e']) || equals_ignoring_case(s, seq!['t'])
}

pub open spec fn is_false_word(s: Seq<char>) -> bool {
    equals_ignoring_case(s, seq!['f', 'a', 'l', 's', 'e']) || equals_ignoring_case(s, seq!['f'])
}

/// The argument that `token` stands for.
pub open spec fn inferred(token: Seq<char>, readings: FloatReadings) -> ArgumentModel {
    if let Some(v) = i32_literal(token) {
        ArgumentModel::Int32(v)
    } else if readings.single is Some && !(readings.double is Some && beyond_single_range(
        readings.single->0,
        readings.double->0,
    )) {
        ArgumentModel::Float32(readings.single->0)
    } else if readings.double is Some {
        ArgumentModel::Float64(readings.double->0)
    } else if is_true_word(token) {
        ArgumentModel::Int32(1)
    } else if is_false_word(token) {
        ArgumentModel::Int32(0)
    } else {
        ArgumentModel::Str(token)
    }
}

/// Inference is total: every token, whatever its float readings, gives
/// exactly one argument, an `Int32`, `Float32`, `Float64` or `Str`, whose
/// type tag is `i`, `f` or `s`.
pub proof fn lemma_inference_total(token: Seq<char>, readings: FloatReadings)
    ensures
        inferred(token, readings) is Int32 || inferred(token, readings) is Float32 || inferred(
            token,
            readings,
        ) is Float64 || inferred(token, readings) is Str,
        tag_of(inferred(token, readings)) == Some('i') || tag_of(inferred(token, readings))
            == Some('f') || tag_of(inferred(token, readings)) == Some('s'),
        is_supported(inferred(token, readings)),
{
}

fn lower_code(c: char) -> (r: u32)
    ensures
        r == ascii_lower(c),
{
    if 'A' <= c && c <= 'Z' {
        c as u32 + 32
    } else {
        c as u32
    }
}

fn matches_word(s: &str, word: &str) -> (r: bool)
    ensures
        r == equals_ignoring_case(s@, word@),
{
    let n = s.unicode_len();
    if n != word.unicode_len() {
        return false;
    }
    let mut i: usize = 0;
    while i < n
        invariant
            n == s@.len() == word@.len(),
            i <= n,
            forall|k: int| 0 <= k < i ==> #[trigger] ascii_lower(s@[k]) == ascii_lower(word@[k]),
        decreases n - i,
    {
        if lower_code(s.get_char(i)) != lower_code(word.get_char(i)) {
            return false;
        }
        i = i + 1;
    }
    true
}

fn beyond_single(single: u32, double: u64) -> (r: bool)
    ensures
        r == beyond_single_range(single, double),
{
    let double_finite = double & 0x7ff0_0000_0000_0000 != 0x7ff0_0000_0000_0000;
    let single_infinite = single & 0x7fff_ffff == 0x7f80_0000;
    let single_zero = single & 0x7fff_ffff == 0;
    let double_zero = double & 0x7fff_ffff_ffff_ffff == 0;
    double_finite && (single_infinite || (single_zero && !double_zero))
}

/// The typed argument for one token. Never fails: every token gives
/// exactly one supported argument.
pub fn infer_argument(token: &str, readings: FloatReadings) -> (r: Argument)
    ensures
        r@ == inferred(token@, readings),
        is_supported(r@),
{
    if let Some(v) = parse_i32(token) {
        return Argument::Int32(v);
    }
    match readings.single {
        Some(single) => {
            let keep_single = match readings.double {
                Some(double) => !beyond_single(single, double),
                None => true,
            };
            if keep_single {
                return Argument::Float32(single);
            }
        },
        None => {},
    }
    if let Some(double) = readings.double {
        return Argument::Float64(double);
    }
    proof {
        reveal_strlit("true");
        reveal_strlit("t");
        reveal_strlit("false");
        reveal_strlit("f");
        assert("true"@ =~= seq!['t', 'r', 'u', 'e']);
        assert("t"@ =~= seq!['t']);
        assert("false"@ =~= seq!['f', 'a', 'l', 's', 'e']);
        assert("f"@ =~= seq!['f']);
    }
    if matches_word(token, "true") || matches_word(token, "t") {
        Argument::Int32(1)
    } else if matches_word(token, "false") || matches_word(token, "f") {
        Argument::Int32(0)
    } else {
        Argument::Str(String::from_str(token))
    }
}

/// The typed arguments for a list of tokens, one for one; `readings[i]` is
/// what reading `tokens[i]` as a float gave.
pub fn infer_arguments(tokens: &Vec<String>, readings: &Vec<FloatReadings>) -> (r: Vec<Argument>)
    requires
        readings@.len() == tokens@.len(),
    ensures
        r@.len() == tokens@.len(),
        forall|i: int| 0 <= i < r@.len() ==> #[trigger] r@[i]@ == inferred(tokens@[i]@, readings@[i]),
        forall|i: int| 0 <= i < r@.len() ==> is_supported(#[trigger] r@[i]@),
{
    let mut out: Vec<Argument> = Vec::new();
    let mut i: usize = 0;
    while i < tokens.len()
        invariant
            i <= tokens@.len(),
            readings@.len() == tokens@.len(),
            out@.len() == i,
            forall|k: int| 0 <= k < i ==> #[trigger] out@[k]@ == inferred(tokens@[k]@, readings@[k]),
            forall|k: int| 0 <= k < i ==> is_supported(#[trigger] out@[k]@),
        decreases tokens@.len() - i,
    {
        out.push(infer_argument(tokens[i].as_str(), readings[i]));
        i = i + 1;
    }
    out
}

} // verus!
