//! How message identifiers are written in IMAP commands.
//!
//! A UID is written as its decimal numeral; a set of UIDs as their numerals
//! separated by commas, in the order given.

use vstd::prelude::*;
use vstd::string::*;

verus! {

/// The character of the decimal digit `d`.
pub open spec fn digit(d: nat) -> char
    recommends
        d < 10,
{
    if d == 0 {
        '0'
    } else if d == 1 {
        '1'
    } else if d == 2 {
        '2'
    } else if d == 3 {
        '3'
    } else if d == 4 {
        '4'
    } else if d == 5 {
        '5'
    } else if d == 6 {
        '6'
    } else if d == 7 {
        '7'
    } else if d == 8 {
        '8'
    } else {
        '9'
    }
}

/// The decimal numeral of `n`: most significant digit first, no leading
/// zero, and `"0"` for zero.
pub open spec fn decimal(n: nat) -> Seq<char>
    decreases n,
{
    if n < 10 {
        seq![digit(n)]
    } else {
        decimal(n / 10).push(digit(n % 10))
    }
}

/// The numerals of `uids`, in order, with a comma between neighbours.
pub open spec fn uid_set(uids: Seq<u32>) -> Seq<char>
    decreases uids.len(),
{
    if uids.len() == 0 {
        Seq::empty()
    } else if uids.len() == 1 {
        decimal(uids[0] as nat)
    } else {
        uid_set(uids.drop_last()) + seq![','] + decimal(uids.last() as nat)
    }
}

/// The value that the numeral `text` denotes, read as a decimal number.
pub open spec fn decimal_value(text: Seq<char>) -> nat
    decreases text.len(),
{
    if text.len() == 0 {
        0
    } else {
        10 * decimal_value(text.drop_last()) + digit_value(text.last())
    }
}

/// The value of a decimal digit character.
pub open spec fn digit_value(c: char) -> nat {
    if c == '1' {
        1
    } else if c == '2' {
        2
    } else if c == '3' {
        3
    } else if c == '4' {
        4
    } else if c == '5' {
        5
    } else if c == '6' {
        6
    } else if c == '7' {
        7
    } else if c == '8' {
        8
    } else if c == '9' {
        9
    } else {
        0
    }
}

/// Whether `c` is one of the ten decimal digits.
pub open spec fn is_digit(c: char) -> bool {
    c == '0' || c == '1' || c == '2' || c == '3' || c == '4' || c == '5' || c == '6' || c == '7'
        || c == '8' || c == '9'
}

/// A numeral holds digits only, is never empty, and reads back as the number
/// it was written from. Two different UIDs therefore never share a numeral.
pub proof fn lemma_decimal_reads_back(n: nat)
    ensures
        decimal(n).len() >= 1,
        forall|i: int| 0 <= i < decimal(n).len() ==> is_digit(#[trigger] decimal(n)[i]),
        decimal_value(decimal(n)) == n,
    decreases n,
{
    if n < 10 {
        let text = decimal(n);
        assert(text.drop_last().len() == 0);
        assert(decimal_value(text.drop_last()) == 0);
        assert(text.last() == digit(n));
    } else {
        lemma_decimal_reads_back(n / 10);
        let head = decimal(n / 10);
        let text = decimal(n);
        assert(text.drop_last() =~= head);
        assert(text.last() == digit(n % 10));
        assert forall|i: int| 0 <= i < text.len() implies is_digit(#[trigger] text[i]) by {
            if i < head.len() {
                assert(text[i] == head[i]);
            }
        }
    }
}

/// A numeral names one number only: UIDs that are written alike are the same
/// UID. A store command therefore marks the message it was built for and no
/// other.
pub proof fn law_uid_text_is_unambiguous(first: u32, second: u32)
    requires
        decimal(first as nat) == decimal(second as nat),
    ensures
        first == second,
{
    lemma_decimal_reads_back(first as nat);
    lemma_decimal_reads_back(second as nat);
}

/// The one-character string of the decimal digit `d`.
fn digit_str(d: u32) -> (text: &'static str)
    requires
        d < 10,
    ensures
        text@ == seq![digit(d as nat)],
{
    proof {
        reveal_strlit("0");
        reveal_strlit("1");
        reveal_strlit("2");
        reveal_strlit("3");
        reveal_strlit("4");
        reveal_strlit("5");
        reveal_strlit("6");
        reveal_strlit("7");
        reveal_strlit("8");
        reveal_strlit("9");
    }
    let text = if d == 0 {
        "0"
    } else if d == 1 {
        "1"
    } else if d == 2 {
        "2"
    } else if d == 3 {
        "3"
    } else if d == 4 {
        "4"
    } else if d == 5 {
        "5"
    } else if d == 6 {
        "6"
    } else if d == 7 {
        "7"
    } else if d == 8 {
        "8"
    } else {
        "9"
    };
    assert(text@ =~= seq![digit(d as nat)]);
    text
}

/// Appends the decimal numeral of `n` to `text`.
fn append_decimal(text: &mut String, n: u32)
    ensures
        final(text)@ == old(text)@ + decimal(n as nat),
    decreases n,
{
    if n >= 10 {
        append_decimal(text, n / 10);
    }
    text.append(digit_str(n % 10));
    assert(text@ =~= old(text)@ + decimal(n as nat));
}

/// Writes one UID as IMAP expects it: as its decimal numeral.
pub fn uid_text(uid: u32) -> (text: String)
    ensures
        text@ == decimal(uid as nat),
{
    let mut text = String::new();
    append_decimal(&mut text, uid);
    assert(text@ =~= decimal(uid as nat));
    text
}

/// Writes a set of UIDs as IMAP expects it: the numerals in the order given,
/// separated by commas. No UID gives the empty string.
pub fn uid_set_text(uids: &Vec<u32>) -> (text: String)
    ensures
        text@ == uid_set(uids@),
{
    let mut text = String::new();
    let mut i: usize = 0;
    while i < uids.len()
        invariant
            i <= uids.len(),
            text@ == uid_set(uids@.take(i as int)),
        decreases uids.len() - i,
    {
        let ghost before = text@;
        if i > 0 {
            proof {
                reveal_strlit(",");
            }
            text.append(",");
            assert(text@ =~= before + seq![',']);
        }
        append_decimal(&mut text, uids[i]);
        proof {
            let next = uids@.take(i + 1);
            assert(next.drop_last() =~= uids@.take(i as int));
            assert(next.last() == uids@[i as int]);
            if i == 0 {
                assert(before =~= Seq::<char>::empty());
                assert(text@ =~= decimal(uids@[0] as nat));
                assert(next[0] == uids@[0]);
            }
        }
        i = i + 1;
    }
    assert(uids@.take(uids.len() as int) =~= uids@);
    text
}

} // verus!
