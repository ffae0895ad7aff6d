//! Identifiers as they arrive in text: decimal numerals of unsigned 64-bit
//! integers.

use crate::rejection::Rejection;
use vstd::prelude::*;
use vstd::string::is_ascii_spec_bytes;
use vstd::string::StringExecFns;
use vstd::utf8::is_ascii_chars;

verus! {

/// Whether the character is one of the ten decimal digits.
pub open spec fn is_digit(c: char) -> bool {
    '0' <= c && c <= '9'
}

/// The number that a decimal digit stands for.
pub open spec fn digit_value(c: char) -> nat {
    if is_digit(c) {
        (c as int - '0' as int) as nat
    } else {
        0
    }
}

/// Whether the text is made of decimal digits alone.
pub open spec fn all_digits(text: Seq<char>) -> bool {
    forall|i: int| 0 <= i < text.len() ==> is_digit(#[trigger] text[i])
}

/// The number that a text of decimal digits stands for.
pub open spec fn decimal_value(digits: Seq<char>) -> nat
    decreases digits.len(),
{
    if digits.len() == 0 {
        0
    } else {
        decimal_value(digits.drop_last()) * 10 + digit_value(digits.last())
    }
}

/// The text without the plus sign that may stand at its head.
pub open spec fn without_sign(text: Seq<char>) -> Seq<char> {
    if text.len() > 0 && text[0] == '+' {
        text.subrange(1, text.len() as int)
    } else {
        text
    }
}

/// The identifier that a text stands for: the text is a decimal numeral, one
/// digit at least, with or without a plus sign at its head, of a number that
/// fits in 64 bits. No other text stands for an identifier.
pub open spec fn id_of_text(text: Seq<char>) -> Option<u64> {
    let digits = without_sign(text);
    if digits.len() > 0 && all_digits(digits) && decimal_value(digits) <= u64::MAX {
        Some(decimal_value(digits) as u64)
    } else {
        None
    }
}

/// The decimal digit that stands for a number below ten.
pub open spec fn digit_char(d: nat) -> char {
    if d == 0 {
        '0'
    } else if d == 1 {
        '1'
    } else if d == 2 {
        '2'
    } else if d == 3 {
        '3'
    } else if d == 4 {
        '4'
    } else if d == 5 {
        '5'
    } else if d == 6 {
        '6'
    } else if d == 7 {
        '7'
    } else if d == 8 {
        '8'
    } else {
        '9'
    }
}

/// The decimal numeral of a number: its digits, the most significant first,
/// with no sign and no zero at its head but for zero itself.
pub open spec fn numeral(n: nat) -> Seq<char>
    decreases n,
{
    if n < 10 {
        seq![digit_char(n)]
    } else {
        numeral(n / 10).push(digit_char(n % 10))
    }
}

/// A numeral stands for no less than any of its heads.
pub proof fn lemma_decimal_value_grows(digits: Seq<char>, n: int)
    requires
        0 <= n <= digits.len(),
    ensures
        decimal_value(digits.take(n)) <= decimal_value(digits),
    decreases digits.len() - n,
{
    if n == digits.len() {
        assert(digits.take(n) =~= digits);
    } else {
        lemma_decimal_value_grows(digits, n + 1);
        assert(digits.take(n + 1).drop_last() =~= digits.take(n));
    }
}

/// A text with a character outside ASCII stands for no identifier.
proof fn lemma_beyond_ascii_is_no_id(text: Seq<char>)
    requires
        !is_ascii_chars(text),
    ensures
        id_of_text(text) is None,
{
    let i = choose|i: int| 0 <= i < text.len() && !('\0' <= #[trigger] text[i] <= '\u{7f}');
    let digits = without_sign(text);
    if text[0] == '+' {
        assert(!is_digit(digits[i - 1]));
    } else {
        assert(!is_digit(digits[i]));
    }
}

/// Reads an identifier from text. The text is taken as a whole: blanks
/// around the numeral, a minus sign or a number beyond 64 bits make it
/// malformed.
pub fn parse_id(text: &str) -> (parsed: Result<u64, Rejection>)
    ensures
        parsed == match id_of_text(text@) {
            Some(id) => Ok::<u64, Rejection>(id),
            None => Err(Rejection::MalformedInput),
        },
{
    if !text.is_ascii() {
        proof {
            lemma_beyond_ascii_is_no_id(text@);
        }
        return Err(Rejection::MalformedInput);
    }
    let bytes = text.as_bytes();
    proof {
        is_ascii_spec_bytes(text);
    }
    let n = bytes.len();
    let start: usize = if n > 0 && bytes[0] == 43 {
        1
    } else {
        0
    };
    let ghost digits = without_sign(text@);
    assert(digits.len() == n - start);
    assert(forall|i: int| 0 <= i < n - start ==> digits[i] == text@[i + start]);
    if start == n {
        return Err(Rejection::MalformedInput);
    }
    let mut value: u64 = 0;
    let mut k: usize = start;
    while k < n
        invariant
            start <= k <= n,
            n == bytes@.len(),
            n == text@.len(),
            is_ascii_chars(text@),
            forall|i: int| 0 <= i < n ==> bytes@[i] == (#[trigger] text@[i]) as u8,
            digits == without_sign(text@),
            digits.len() == n - start,
            forall|i: int| 0 <= i < n - start ==> #[trigger] digits[i] == text@[i + start],
            forall|i: int| 0 <= i < k - start ==> is_digit(#[trigger] digits[i]),
            value == decimal_value(digits.take(k - start)),
        decreases n - k,
    {
        let byte = bytes[k];
        let ghost c = digits[k - start];
        assert(c == text@[k as int]);
        assert(byte == c as u8);
        assert('\0' <= c <= '\u{7f}');
        let ghost longer = digits.take(k - start + 1);
        assert(longer.drop_last() =~= digits.take(k - start));
        assert(longer.last() == c);
        if byte < 48 || byte > 57 {
            assert(!is_digit(c));
            return Err(Rejection::MalformedInput);
        }
        assert(is_digit(c));
        let digit: u64 = (byte - 48) as u64;
        assert(digit == digit_value(c));
        if value > (u64::MAX - digit) / 10 {
            proof {
                assert(decimal_value(longer) > u64::MAX);
                lemma_decimal_value_grows(digits, k - start + 1);
            }
            return Err(Rejection::MalformedInput);
        }
        value = value * 10 + digit;
        k = k + 1;
    }
    assert(digits.take(n - start) =~= digits);
    Ok(value)
}

/// The numeral of an identifier is read back as that identifier.
pub proof fn lemma_numeral_reads_back(id: u64)
    ensures
        id_of_text(numeral(id as nat)) == Some(id),
{
    lemma_numeral_is_decimal(id as nat);
}

/// A numeral is made of digits, one at least, and stands for its number.
pub proof fn lemma_numeral_is_decimal(n: nat)
    ensures
        numeral(n).len() > 0,
        all_digits(numeral(n)),
        without_sign(numeral(n)) == numeral(n),
        decimal_value(numeral(n)) == n,
    decreases n,
{
    if n < 10 {
        assert(numeral(n).drop_last() =~= Seq::<char>::empty());
        assert(decimal_value(numeral(n).drop_last()) == 0);
    } else {
        lemma_numeral_is_decimal(n / 10);
        assert(numeral(n).drop_last() =~= numeral(n / 10));
        assert(numeral(n)[0] == numeral(n / 10)[0]);
    }
}

/// The text of one decimal digit.
fn digit_text(d: u64) -> (text: &'static str)
    requires
        d < 10,
    ensures
        text@ == seq![digit_char(d as nat)],
{
    proof {
        reveal_strlit("0");
        reveal_strlit("1");
        reveal_strlit("2");
        reveal_strlit("3");
        reveal_strlit("4");
        reveal_strlit("5");
        reveal_strlit("6");
        reveal_strlit("7");
        reveal_strlit("8");
        reveal_strlit("9");
    }
    let text = if d == 0 {
        "0"
    } else if d == 1 {
        "1"
    } else if d == 2 {
        "2"
    } else if d == 3 {
        "3"
    } else if d == 4 {
        "4"
    } else if d == 5 {
        "5"
    } else if d == 6 {
        "6"
    } else if d == 7 {
        "7"
    } else if d == 8 {
        "8"
    } else {
        "9"
    };
    assert(text@ =~= seq![digit_char(d as nat)]);
    text
}

/// Writes an identifier as text: its decimal numeral, which [`parse_id`]
/// reads back.
pub fn format_id(id: u64) -> (text: String)
    ensures
        text@ == numeral(id as nat),
        id_of_text(text@) == Some(id),
    decreases id,
{
    proof {
        lemma_numeral_reads_back(id);
    }
    if id < 10 {
        String::from_str(digit_text(id))
    } else {
        let mut text = format_id(id / 10);
        text.append(digit_text(id % 10));
        assert(text@ =~= numeral(id as nat));
        text
    }
}

} // verus!
