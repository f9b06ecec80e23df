//! Lowercase hexadecimal numerals.

use vstd::prelude::*;
use vstd::string::StringExecFns;

verus! {

/// The numeral for the digit `d`, which lies between 0 and 15: `0` to `9`,
/// then `a` to `f`.
pub open spec fn hex_digit(d: int) -> char {
    if d < 10 {
        ('0' as int + d) as char
    } else {
        ('a' as int + d - 10) as char
    }
}

/// The numeral for `n` in base sixteen: most significant digit first, with no
/// leading zero, and the single digit `0` for zero.
pub open spec fn hex_digits(n: nat) -> Seq<char>
    decreases n,
{
    if n < 16 {
        seq![hex_digit(n as int)]
    } else {
        hex_digits(n / 16).push(hex_digit((n % 16) as int))
    }
}

/// Whether `c` is one of the sixteen lowercase hexadecimal digits.
pub open spec fn is_hex_digit(c: char) -> bool {
    '0' <= c <= '9' || 'a' <= c <= 'f'
}

/// The number that the digit `c` stands for.
pub open spec fn digit_value(c: char) -> int {
    if c <= '9' {
        c as int - '0' as int
    } else {
        c as int - 'a' as int + 10
    }
}

/// The number that a base-sixteen numeral denotes, most significant digit
/// first.
pub open spec fn hex_value(digits: Seq<char>) -> int
    decreases digits.len(),
{
    if digits.len() == 0 {
        0
    } else {
        16 * hex_value(digits.drop_last()) + digit_value(digits.last())
    }
}

/// A numeral denotes the number it was written for.
pub proof fn lemma_hex_digits_value(n: nat)
    ensures
        hex_value(hex_digits(n)) == n,
    decreases n,
{
    if n < 16 {
        let digits = seq![hex_digit(n as int)];
        assert(digits.drop_last().len() == 0);
        assert(hex_value(digits.drop_last()) == 0);
        assert(digit_value(digits.last()) == n);
    } else {
        lemma_hex_digits_value(n / 16);
        let upper = hex_digits(n / 16);
        let digits = upper.push(hex_digit((n % 16) as int));
        assert(digits.drop_last() =~= upper);
        assert(digit_value(digits.last()) == n % 16);
    }
}

/// A numeral is made of lowercase hexadecimal digits, has at least one of
/// them, and begins with `0` only when it is the numeral for zero.
pub proof fn lemma_hex_digits_canonical(n: nat)
    ensures
        hex_digits(n).len() >= 1,
        forall|i: int| 0 <= i < hex_digits(n).len() ==> is_hex_digit(#[trigger] hex_digits(n)[i]),
        hex_digits(n)[0] == '0' <==> n == 0,
    decreases n,
{
    if n >= 16 {
        lemma_hex_digits_canonical(n / 16);
    }
}

/// A number below 16 to the power of 4 is written with at most four digits.
pub proof fn lemma_hex_digits_len_u16(n: u16)
    ensures
        1 <= hex_digits(n as nat).len() <= 4,
{
    reveal_with_fuel(hex_digits, 4);
}

/// The one-character string for the digit `d`.
fn digit_str(d: u16) -> (s: &'static str)
    requires
        d < 16,
    ensures
        s@ == seq![hex_digit(d as int)],
{
    proof {
        reveal_strlit("0");
        reveal_strlit("1");
        reveal_strlit("2");
        reveal_strlit("3");
        reveal_strlit("4");
        reveal_strlit("5");
        reveal_strlit("6");
        reveal_strlit("7");
        reveal_strlit("8");
        reveal_strlit("9");
        reveal_strlit("a");
        reveal_strlit("b");
        reveal_strlit("c");
        reveal_strlit("d");
        reveal_strlit("e");
        reveal_strlit("f");
    }
    let s: &'static str = match d {
        0 => "0",
        1 => "1",
        2 => "2",
        3 => "3",
        4 => "4",
        5 => "5",
        6 => "6",
        7 => "7",
        8 => "8",
        9 => "9",
        10 => "a",
        11 => "b",
        12 => "c",
        13 => "d",
        14 => "e",
        _ => "f",
    };
    assert(s@ =~= seq![hex_digit(d as int)]);
    s
}

/// Appends the lowercase hexadecimal numeral for `n` to `text`.
pub fn push_hex(text: &mut String, n: u16)
    ensures
        final(text)@ == old(text)@ + hex_digits(n as nat),
    decreases n,
{
    if n >= 16 {
        push_hex(text, n / 16);
    }
    text.append(digit_str(n % 16));
}

} // verus!
