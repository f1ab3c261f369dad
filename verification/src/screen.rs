//! Which messages the message parsers are consulted on.
//!
//! The parsers are not total. Three kinds of input are known to make them
//! stop with a failed arithmetic or internal check instead of returning,
//! and each kind is recognised here by the bytes alone:
//!
//! - The full parser walks the whole MIME structure of a message, and its
//!   bookkeeping for nested parts fails on some inputs with `multipart` or
//!   `message` content types. A message that could reach that bookkeeping
//!   is kept away from the full parser and judged by its headers alone. The
//!   screen does not try to tell a well-formed multipart message from a
//!   broken one; it asks only whether the bytes could name such a content
//!   type at all.
//! - The parser of the `Received` header takes the absolute value of a
//!   time zone it has read as a 64-bit integer, which fails for the least
//!   such integer. A message that spells that integer is kept away from
//!   both parsers.
//! - The parsers keep offsets and counters in fixed-width integers. A
//!   message of two gibibytes or more is kept away from both parsers.

use vstd::prelude::*;

verus! {

/// The length from which on a message is not handed to any parser.
pub const PARSE_LIMIT: usize = 0x7fff_ffff;

/// Whether `raw` is short enough to be handed to a parser.
pub open spec fn within_limit(raw: Seq<u8>) -> bool {
    raw.len() < PARSE_LIMIT
}

/// The ASCII lower-case form of a byte.
pub open spec fn lower(byte: u8) -> u8 {
    if 0x41 <= byte <= 0x5a {
        (byte + 0x20) as u8
    } else {
        byte
    }
}

/// Whether the word `multipart` stands at `at` in `raw`, in any mix of
/// upper and lower case.
pub open spec fn multipart_at(raw: Seq<u8>, at: int) -> bool {
    &&& 0 <= at
    &&& at + 9 <= raw.len()
    &&& lower(raw[at]) == 0x6d
    &&& lower(raw[at + 1]) == 0x75
    &&& lower(raw[at + 2]) == 0x6c
    &&& lower(raw[at + 3]) == 0x74
    &&& lower(raw[at + 4]) == 0x69
    &&& lower(raw[at + 5]) == 0x70
    &&& lower(raw[at + 6]) == 0x61
    &&& lower(raw[at + 7]) == 0x72
    &&& lower(raw[at + 8]) == 0x74
}

/// Whether the word `message` stands at `at` in `raw`, in any mix of upper
/// and lower case.
pub open spec fn message_at(raw: Seq<u8>, at: int) -> bool {
    &&& 0 <= at
    &&& at + 7 <= raw.len()
    &&& lower(raw[at]) == 0x6d
    &&& lower(raw[at + 1]) == 0x65
    &&& lower(raw[at + 2]) == 0x73
    &&& lower(raw[at + 3]) == 0x73
    &&& lower(raw[at + 4]) == 0x61
    &&& lower(raw[at + 5]) == 0x67
    &&& lower(raw[at + 6]) == 0x65
}

/// Whether a byte may stand between a content type and the slash after it
/// without ending or changing the type: a blank, a tab, a carriage return,
/// a line feed, a double quote or a backslash.
pub open spec fn is_padding(byte: u8) -> bool {
    byte == 0x20 || byte == 0x09 || byte == 0x0d || byte == 0x0a || byte == 0x22 || byte == 0x5c
}

/// Whether, from `from` on, `raw` goes on as a content type goes on to its
/// subtype: with any run of padding and then a slash, or with the opening
/// bracket of a comment.
pub open spec fn subtype_follows(raw: Seq<u8>, from: int) -> bool
    decreases raw.len() - from,
{
    if from < 0 || from >= raw.len() {
        false
    } else if raw[from] == 0x2f || raw[from] == 0x28 {
        true
    } else if is_padding(raw[from]) {
        subtype_follows(raw, from + 1)
    } else {
        false
    }
}

/// Whether the digits of two to the power of 63 stand at `at` in `raw`.
pub open spec fn least_digits_at(raw: Seq<u8>, at: int) -> bool {
    &&& 0 <= at
    &&& at + 19 <= raw.len()
    &&& raw[at] == 0x39
    &&& raw[at + 1] == 0x32
    &&& raw[at + 2] == 0x32
    &&& raw[at + 3] == 0x33
    &&& raw[at + 4] == 0x33
    &&& raw[at + 5] == 0x37
    &&& raw[at + 6] == 0x32
    &&& raw[at + 7] == 0x30
    &&& raw[at + 8] == 0x33
    &&& raw[at + 9] == 0x36
    &&& raw[at + 10] == 0x38
    &&& raw[at + 11] == 0x35
    &&& raw[at + 12] == 0x34
    &&& raw[at + 13] == 0x37
    &&& raw[at + 14] == 0x37
    &&& raw[at + 15] == 0x35
    &&& raw[at + 16] == 0x38
    &&& raw[at + 17] == 0x30
    &&& raw[at + 18] == 0x38
}

/// Whether, from `from` on, `raw` spells two to the power of 63, with any
/// number of zeros before it.
pub open spec fn least_follows(raw: Seq<u8>, from: int) -> bool
    decreases raw.len() - from,
{
    if from < 0 || from >= raw.len() {
        false
    } else if least_digits_at(raw, from) {
        true
    } else if raw[from] == 0x30 {
        least_follows(raw, from + 1)
    } else {
        false
    }
}

/// Whether `raw` spells, anywhere, the least 64-bit integer: a minus sign,
/// any number of zeros, and the digits of two to the power of 63.
pub open spec fn names_least_integer(raw: Seq<u8>) -> bool {
    exists|at: int| 0 <= at < raw.len() && raw[at] == 0x2d && least_follows(raw, at + 1)
}

/// Whether `raw` holds the word `multipart` anywhere.
pub open spec fn names_multipart(raw: Seq<u8>) -> bool {
    exists|at: int| multipart_at(raw, at)
}

/// Whether `raw` holds, anywhere, the word `message` going on to a subtype.
pub open spec fn names_message_type(raw: Seq<u8>) -> bool {
    exists|at: int| message_at(raw, at) && subtype_follows(raw, at + 7)
}

/// Whether the header parser is consulted on `raw`: whether `raw` is
/// within the limit and does not spell the least 64-bit integer.
pub open spec fn headers_return(raw: Seq<u8>) -> bool {
    within_limit(raw) && !names_least_integer(raw)
}

/// Whether the full parser is consulted on `raw`: whether the header parser
/// is, and `raw` names neither a `multipart` content type nor a `message`
/// content type with a subtype.
pub open spec fn parser_returns(raw: Seq<u8>) -> bool {
    headers_return(raw) && !names_multipart(raw) && !names_message_type(raw)
}

/// The ASCII lower-case form of a byte.
fn to_lower(byte: u8) -> (low: u8)
    ensures
        low == lower(byte),
{
    if 0x41 <= byte && byte <= 0x5a {
        byte + 0x20
    } else {
        byte
    }
}

/// Whether the word `multipart` stands at `at`.
fn has_multipart_at(raw: &Vec<u8>, at: usize) -> (found: bool)
    ensures
        found == multipart_at(raw@, at as int),
{
    if raw.len() < 9 || at > raw.len() - 9 {
        return false;
    }
    to_lower(raw[at]) == 0x6d && to_lower(raw[at + 1]) == 0x75 && to_lower(raw[at + 2]) == 0x6c
        && to_lower(raw[at + 3]) == 0x74 && to_lower(raw[at + 4]) == 0x69 && to_lower(raw[at + 5])
        == 0x70 && to_lower(raw[at + 6]) == 0x61 && to_lower(raw[at + 7]) == 0x72 && to_lower(
        raw[at + 8],
    ) == 0x74
}

/// Whether the word `message` stands at `at`.
fn has_message_at(raw: &Vec<u8>, at: usize) -> (found: bool)
    ensures
        found == message_at(raw@, at as int),
{
    if raw.len() < 7 || at > raw.len() - 7 {
        return false;
    }
    to_lower(raw[at]) == 0x6d && to_lower(raw[at + 1]) == 0x65 && to_lower(raw[at + 2]) == 0x73
        && to_lower(raw[at + 3]) == 0x73 && to_lower(raw[at + 4]) == 0x61 && to_lower(raw[at + 5])
        == 0x67 && to_lower(raw[at + 6]) == 0x65
}

/// Whether `raw` goes on to a subtype from `from` on.
fn has_subtype_after(raw: &Vec<u8>, from: usize) -> (found: bool)
    ensures
        found == subtype_follows(raw@, from as int),
{
    let mut k: usize = from;
    while k < raw.len()
        invariant
            from <= k,
            subtype_follows(raw@, from as int) == subtype_follows(raw@, k as int),
        decreases raw.len() - k,
    {
        let byte = raw[k];
        if byte == 0x2f || byte == 0x28 {
            return true;
        }
        let padding = byte == 0x20 || byte == 0x09 || byte == 0x0d || byte == 0x0a || byte == 0x22
            || byte == 0x5c;
        if !padding {
            return false;
        }
        k = k + 1;
    }
    false
}

/// Whether the digits of two to the power of 63 stand at `at`.
fn has_least_digits_at(raw: &Vec<u8>, at: usize) -> (found: bool)
    ensures
        found == least_digits_at(raw@, at as int),
{
    if raw.len() < 19 || at > raw.len() - 19 {
        return false;
    }
    raw[at] == 0x39 && raw[at + 1] == 0x32 && raw[at + 2] == 0x32 && raw[at + 3] == 0x33 && raw[at
        + 4] == 0x33 && raw[at + 5] == 0x37 && raw[at + 6] == 0x32 && raw[at + 7] == 0x30 && raw[at
        + 8] == 0x33 && raw[at + 9] == 0x36 && raw[at + 10] == 0x38 && raw[at + 11] == 0x35
        && raw[at + 12] == 0x34 && raw[at + 13] == 0x37 && raw[at + 14] == 0x37 && raw[at + 15]
        == 0x35 && raw[at + 16] == 0x38 && raw[at + 17] == 0x30 && raw[at + 18] == 0x38
}

/// Whether `raw` spells two to the power of 63 from `from` on.
fn has_least_after(raw: &Vec<u8>, from: usize) -> (found: bool)
    ensures
        found == least_follows(raw@, from as int),
{
    let mut k: usize = from;
    while k < raw.len()
        invariant
            from <= k,
            least_follows(raw@, from as int) == least_follows(raw@, k as int),
        decreases raw.len() - k,
    {
        if has_least_digits_at(raw, k) {
            return true;
        }
        if raw[k] != 0x30 {
            return false;
        }
        k = k + 1;
    }
    false
}

/// Decides whether `raw` is short enough to be handed to a parser.
pub fn fits(raw: &Vec<u8>) -> (short: bool)
    ensures
        short == within_limit(raw@),
{
    raw.len() < PARSE_LIMIT
}

/// Decides whether the header parser is consulted on `raw`.
///
/// The answer is no exactly when `raw` is too long, or holds a minus sign
/// followed by any number of zeros and the digits `9223372036854775808`.
pub fn headers_return_on(raw: &Vec<u8>) -> (safe: bool)
    ensures
        safe == headers_return(raw@),
{
    if !fits(raw) {
        return false;
    }
    let mut at: usize = 0;
    while at < raw.len()
        invariant
            at <= raw.len(),
            forall|k: int| 0 <= k < at ==> !(raw@[k] == 0x2d && least_follows(raw@, k + 1)),
        decreases raw.len() - at,
    {
        if raw[at] == 0x2d {
            if has_least_after(raw, at + 1) {
                assert(raw@[at as int] == 0x2d && least_follows(raw@, at as int + 1));
                assert(names_least_integer(raw@));
                return false;
            }
        }
        at = at + 1;
    }
    true
}

/// Decides whether the full parser is consulted on `raw`.
///
/// The answer is no exactly when the header parser is not consulted either,
/// or `raw` holds the word `multipart`, or holds the word `message`
/// followed, after blanks, tabs, line ends, double quotes or backslashes,
/// by a slash or an opening bracket; case does not matter.
pub fn returns_on(raw: &Vec<u8>) -> (safe: bool)
    ensures
        safe == parser_returns(raw@),
{
    if !headers_return_on(raw) {
        return false;
    }
    let mut at: usize = 0;
    while at < raw.len()
        invariant
            at <= raw.len(),
            forall|k: int| 0 <= k < at ==> !multipart_at(raw@, k),
            forall|k: int| 0 <= k < at ==> !(message_at(raw@, k) && subtype_follows(raw@, k + 7)),
        decreases raw.len() - at,
    {
        if has_multipart_at(raw, at) {
            assert(names_multipart(raw@));
            return false;
        }
        if has_message_at(raw, at) {
            if has_subtype_after(raw, at + 7) {
                assert(message_at(raw@, at as int) && subtype_follows(raw@, at as int + 7));
                assert(names_message_type(raw@));
                return false;
            }
        }
        at = at + 1;
    }
    true
}

} // verus!
