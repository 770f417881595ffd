//! Decimal rendering of unsigned integers.
//!
//! The spec functions here fix, digit by digit, the text that the
//! formatter produces: the plain decimal form of a number, the zero-padded
//! form of a fixed width, and the fractional block with its trailing
//! zeros removed.

use vstd::prelude::*;
use vstd::string::StringExecFns;

verus! {

/// The decimal digit character for `d`, for `d <= 9`.
pub open spec fn char_of_digit(d: nat) -> char
    recommends
        d <= 9,
{
    if d == 0 {
        '0'
    } else if d == 1 {
        '1'
    } else if d == 2 {
        '2'
    } else if d == 3 {
        '3'
    } else if d == 4 {
        '4'
    } else if d == 5 {
        '5'
    } else if d == 6 {
        '6'
    } else if d == 7 {
        '7'
    } else if d == 8 {
        '8'
    } else {
        '9'
    }
}

/// The decimal digits of `n`, most significant first, without leading
/// zeros; zero itself is the single digit `'0'`.
pub open spec fn spec_decimal(n: nat) -> Seq<char>
    decreases n,
{
    if n < 10 {
        seq![char_of_digit(n)]
    } else {
        spec_decimal(n / 10).push(char_of_digit(n % 10))
    }
}

/// The lowest `width` decimal digits of `n`, most significant first,
/// zero-padded on the left to exactly `width` characters.
pub open spec fn spec_padded(n: nat, width: nat) -> Seq<char>
    decreases width,
{
    if width == 0 {
        Seq::empty()
    } else {
        spec_padded(n / 10, (width - 1) as nat).push(char_of_digit(n % 10))
    }
}

/// `s` with every trailing `'0'` removed.
pub open spec fn strip_trailing_zeros(s: Seq<char>) -> Seq<char>
    decreases s.len(),
{
    if s.len() > 0 && s.last() == '0' {
        strip_trailing_zeros(s.drop_last())
    } else {
        s
    }
}

/// The fractional block for a remainder `frac` shown to `width` decimal
/// places: zero-padded to the width, then stripped of trailing zeros.
pub open spec fn spec_fraction(frac: nat, width: nat) -> Seq<char> {
    strip_trailing_zeros(spec_padded(frac, width))
}

/// The single-character string for the digit `d`.
fn digit_str(d: u64) -> (s: &'static str)
    requires
        d <= 9,
    ensures
        s@ == seq![char_of_digit(d as nat)],
{
    let s: &'static str = match d {
        0 => "0",
        1 => "1",
        2 => "2",
        3 => "3",
        4 => "4",
        5 => "5",
        6 => "6",
        7 => "7",
        8 => "8",
        _ => "9",
    };
    proof {
        reveal_strlit("0");
        reveal_strlit("1");
        reveal_strlit("2");
        reveal_strlit("3");
        reveal_strlit("4");
        reveal_strlit("5");
        reveal_strlit("6");
        reveal_strlit("7");
        reveal_strlit("8");
        reveal_strlit("9");
        assert(s@ =~= seq![char_of_digit(d as nat)]);
    }
    s
}

/// The decimal form of `n`, without leading zeros.
pub fn decimal_string(n: u64) -> (s: String)
    ensures
        s@ == spec_decimal(n as nat),
    decreases n,
{
    if n < 10 {
        digit_str(n).to_owned()
    } else {
        let mut s = decimal_string(n / 10);
        s.append(digit_str(n % 10));
        proof {
            assert(s@ =~= spec_decimal(n as nat));
        }
        s
    }
}

/// The lowest `width` decimal digits of `n`, zero-padded on the left to
/// exactly `width` characters.
pub fn padded_string(n: u64, width: u64) -> (s: String)
    ensures
        s@ == spec_padded(n as nat, width as nat),
    decreases width,
{
    if width == 0 {
        String::new()
    } else {
        let mut s = padded_string(n / 10, width - 1);
        s.append(digit_str(n % 10));
        proof {
            assert(s@ =~= spec_padded(n as nat, width as nat));
        }
        s
    }
}

/// Removing one trailing zero digit numerically removes it from the
/// padded text as well.
proof fn lemma_fraction_drop_zero(frac: nat, width: nat)
    requires
        width > 0,
        frac % 10 == 0,
    ensures
        spec_fraction(frac, width) == spec_fraction(frac / 10, (width - 1) as nat),
{
    let padded = spec_padded(frac, width);
    assert(padded.last() == '0');
    assert(padded.drop_last() =~= spec_padded(frac / 10, (width - 1) as nat));
}

/// A padded block whose number does not end in a zero digit has no
/// trailing zero to strip.
proof fn lemma_fraction_stripped(frac: nat, width: nat)
    requires
        width == 0 || frac % 10 != 0,
    ensures
        spec_fraction(frac, width) == spec_padded(frac, width),
{
    if width > 0 {
        assert(spec_padded(frac, width).last() == char_of_digit(frac % 10));
        assert(char_of_digit(frac % 10) != '0');
    }
}

/// The fractional block for `frac` at `width` decimal places.
pub fn fraction_string(frac: u64, width: u64) -> (s: String)
    ensures
        s@ == spec_fraction(frac as nat, width as nat),
{
    let mut f = frac;
    let mut w = width;
    while w > 0 && f % 10 == 0
        invariant
            spec_fraction(frac as nat, width as nat) == spec_fraction(f as nat, w as nat),
        decreases w,
    {
        proof {
            lemma_fraction_drop_zero(f as nat, w as nat);
        }
        f = f / 10;
        w = w - 1;
    }
    proof {
        lemma_fraction_stripped(f as nat, w as nat);
    }
    padded_string(f, w)
}

} // verus!
