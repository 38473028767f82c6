use crate::state::MAX_MEMO_LEN;
use vstd::prelude::*;
use vstd::string::StringExecFns;
use vstd::utf8::encode_utf8;

verus! {

/// Length of a text in bytes.
pub open spec fn byte_len(text: Seq<char>) -> nat {
    encode_utf8(text).len()
}

/// The text of an optional memo: an absent memo reads as the empty text.
pub open spec fn memo_text(memo: Option<String>) -> Seq<char> {
    match memo {
        Some(text) => text@,
        None => Seq::empty(),
    }
}

/// Whether a memo is present and longer than 128 bytes.
pub open spec fn memo_too_long(memo: Option<String>) -> bool {
    match memo {
        Some(text) => byte_len(text@) > 128,
        None => false,
    }
}

/// Tells whether `text` is at most 128 bytes long.
pub fn text_fits_memo(text: &String) -> (fits: bool)
    ensures
        fits == (byte_len(text@) <= 128),
{
    text.as_str().as_bytes().len() <= MAX_MEMO_LEN
}

/// Tells whether an optional memo is absent or at most 128 bytes long.
pub fn memo_fits(memo: &Option<String>) -> (fits: bool)
    ensures
        fits == !memo_too_long(*memo),
{
    match memo {
        Some(text) => text_fits_memo(text),
        None => true,
    }
}

/// The memo's text, or the empty text for an absent memo.
pub fn memo_or_empty(memo: Option<String>) -> (text: String)
    ensures
        text@ == memo_text(memo),
{
    match memo {
        Some(text) => text,
        None => String::new(),
    }
}

/// The character of a decimal digit.
pub open spec fn digit_char(digit: int) -> char {
    if digit == 0 {
        '0'
    } else if digit == 1 {
        '1'
    } else if digit == 2 {
        '2'
    } else if digit == 3 {
        '3'
    } else if digit == 4 {
        '4'
    } else if digit == 5 {
        '5'
    } else if digit == 6 {
        '6'
    } else if digit == 7 {
        '7'
    } else if digit == 8 {
        '8'
    } else {
        '9'
    }
}

/// A number written in decimal, without leading zeros.
pub open spec fn decimal(n: nat) -> Seq<char>
    decreases n,
{
    if n < 10 {
        seq![digit_char(n as int)]
    } else {
        decimal(n / 10).push(digit_char((n % 10) as int))
    }
}

/// The characters of the first `upto` digits, last digit first.
spec fn digits_reversed(digits: Seq<u8>, upto: int) -> Seq<char>
    decreases upto,
{
    if upto <= 0 {
        Seq::empty()
    } else {
        seq![digit_char(digits[upto - 1] as int)] + digits_reversed(digits, upto - 1)
    }
}

/// The characters of the first digits do not depend on the digits that
/// follow them.
proof fn lemma_digits_reversed_prefix(digits: Seq<u8>, more: Seq<u8>, upto: int)
    requires
        0 <= upto <= digits.len() <= more.len(),
        forall|i: int| 0 <= i < digits.len() ==> digits[i] == more[i],
    ensures
        digits_reversed(more, upto) == digits_reversed(digits, upto),
    decreases upto,
{
    if upto > 0 {
        lemma_digits_reversed_prefix(digits, more, upto - 1);
    }
}

/// The one-character text of a decimal digit.
fn digit_str(digit: u8) -> (text: &'static str)
    requires
        digit < 10,
    ensures
        text@ == seq![digit_char(digit as int)],
{
    proof {
        reveal_strlit("0");
        reveal_strlit("1");
        reveal_strlit("2");
        reveal_strlit("3");
        reveal_strlit("4");
        reveal_strlit("5");
        reveal_strlit("6");
        reveal_strlit("7");
        reveal_strlit("8");
        reveal_strlit("9");
    }
    let text = if digit == 0 {
        "0"
    } else if digit == 1 {
        "1"
    } else if digit == 2 {
        "2"
    } else if digit == 3 {
        "3"
    } else if digit == 4 {
        "4"
    } else if digit == 5 {
        "5"
    } else if digit == 6 {
        "6"
    } else if digit == 7 {
        "7"
    } else if digit == 8 {
        "8"
    } else {
        "9"
    };
    assert(text@ =~= seq![digit_char(digit as int)]);
    text
}

/// Writes `n` in decimal.
pub fn decimal_string(n: u64) -> (text: String)
    ensures
        text@ == decimal(n as nat),
{
    let mut digits: Vec<u8> = Vec::new();
    let mut rest: u64 = n;
    while rest >= 10
        invariant
            decimal(n as nat) == decimal(rest as nat) + digits_reversed(
                digits@,
                digits@.len() as int,
            ),
            forall|i: int| 0 <= i < digits@.len() ==> digits@[i] < 10,
        decreases rest,
    {
        let ghost before = digits@;
        digits.push((rest % 10) as u8);
        proof {
            lemma_digits_reversed_prefix(before, digits@, before.len() as int);
            assert(decimal(rest as nat) == decimal((rest / 10) as nat).push(
                digit_char((rest % 10) as int),
            ));
            assert(decimal((rest / 10) as nat).push(digit_char((rest % 10) as int))
                + digits_reversed(before, before.len() as int) =~= decimal((rest / 10) as nat)
                + digits_reversed(digits@, digits@.len() as int));
        }
        rest = rest / 10;
    }
    let ghost before = digits@;
    digits.push(rest as u8);
    proof {
        lemma_digits_reversed_prefix(before, digits@, before.len() as int);
        assert(decimal(n as nat) =~= digits_reversed(digits@, digits@.len() as int));
    }
    let mut text = String::new();
    let mut k: usize = digits.len();
    while k > 0
        invariant
            k <= digits@.len(),
            forall|i: int| 0 <= i < digits@.len() ==> digits@[i] < 10,
            text@ + digits_reversed(digits@, k as int) == digits_reversed(
                digits@,
                digits@.len() as int,
            ),
        decreases k,
    {
        let ghost text_before = text@;
        k -= 1;
        text.append(digit_str(digits[k]));
        assert(text@ + digits_reversed(digits@, k as int) =~= text_before + digits_reversed(
            digits@,
            k as int + 1,
        ));
    }
    assert(text@ =~= text@ + digits_reversed(digits@, 0));
    text
}

} // verus!
