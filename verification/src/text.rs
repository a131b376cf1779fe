//! Decimal rendering of integers and of fixed-point quantities.
//!
//! Measurements that are fractional by nature (percentages, load averages,
//! temperatures) are carried as integers counted in hundredths. The functions
//! here turn such integers into the text a person reads.

use vstd::prelude::*;
use vstd::string::*;

verus! {

/// The character that writes the digit `d`.
pub open spec fn digit_char(d: nat) -> char {
    if d == 0 {
        '0'
    } else if d == 1 {
        '1'
    } else if d == 2 {
        '2'
    } else if d == 3 {
        '3'
    } else if d == 4 {
        '4'
    } else if d == 5 {
        '5'
    } else if d == 6 {
        '6'
    } else if d == 7 {
        '7'
    } else if d == 8 {
        '8'
    } else {
        '9'
    }
}

/// The decimal numeral of `n`, without sign and without leading zeros.
pub open spec fn decimal(n: nat) -> Seq<char>
    decreases n,
{
    if n < 10 {
        seq![digit_char(n)]
    } else {
        decimal(n / 10).push(digit_char(n % 10))
    }
}

/// The decimal numeral of `n`, widened to two places with a leading zero.
pub open spec fn decimal_two_places(n: nat) -> Seq<char> {
    if n < 10 {
        seq!['0', digit_char(n)]
    } else {
        decimal(n)
    }
}

/// `n / d` rounded to the nearest integer, a tie going to the even neighbour.
pub open spec fn round_half_even(n: nat, d: nat) -> nat
    recommends
        d > 0,
{
    let q = n / d;
    let r = n % d;
    if 2 * r > d || (2 * r == d && q % 2 == 1) {
        q + 1
    } else {
        q
    }
}

/// `text` followed by as many spaces as it takes to make `width`
/// characters, and by none where `text` is that long already.
pub open spec fn padded(text: Seq<char>, width: nat) -> Seq<char> {
    if text.len() >= width {
        text
    } else {
        text + Seq::new((width - text.len()) as nat, |i: int| ' ')
    }
}

/// A count of hundredths written with two decimals, as in `12.05`.
pub open spec fn fixed_two_decimals(hundredths: nat) -> Seq<char> {
    decimal(hundredths / 100) + seq!['.'] + decimal_two_places(hundredths % 100)
}

/// A count of tenths written with one decimal, as in `12.5`.
pub open spec fn tenths_text(tenths: nat) -> Seq<char> {
    decimal(tenths / 10) + seq!['.', digit_char(tenths % 10)]
}

/// A count of hundredths written with one decimal, rounded half to even.
pub open spec fn fixed_one_decimal(hundredths: nat) -> Seq<char> {
    tenths_text(round_half_even(hundredths, 10))
}

/// The one-character text of a single digit.
pub fn digit_str(d: u64) -> (s: &'static str)
    requires
        d < 10,
    ensures
        s@ == seq![digit_char(d as nat)],
{
    proof {
        reveal_strlit("0");
        reveal_strlit("1");
        reveal_strlit("2");
        reveal_strlit("3");
        reveal_strlit("4");
        reveal_strlit("5");
        reveal_strlit("6");
        reveal_strlit("7");
        reveal_strlit("8");
        reveal_strlit("9");
    }
    let s = if d == 0 {
        "0"
    } else if d == 1 {
        "1"
    } else if d == 2 {
        "2"
    } else if d == 3 {
        "3"
    } else if d == 4 {
        "4"
    } else if d == 5 {
        "5"
    } else if d == 6 {
        "6"
    } else if d == 7 {
        "7"
    } else if d == 8 {
        "8"
    } else {
        "9"
    };
    assert(s@ =~= seq![digit_char(d as nat)]);
    s
}

/// Writes `n` in decimal.
pub fn decimal_string(n: u64) -> (s: String)
    ensures
        s@ == decimal(n as nat),
    decreases n,
{
    if n < 10 {
        String::from_str(digit_str(n))
    } else {
        let mut s = decimal_string(n / 10);
        s.append(digit_str(n % 10));
        assert(s@ =~= decimal((n / 10) as nat).push(digit_char((n % 10) as nat)));
        s
    }
}

/// Appends `text` to `out`, then spaces until `width` characters were
/// appended; no space where `text` is that long already.
pub fn push_padded(out: &mut String, text: &str, width: usize)
    ensures
        final(out)@ == old(out)@ + padded(text@, width as nat),
{
    out.append(text);
    let mut written: usize = text.unicode_len();
    while written < width
        invariant
            text@.len() <= written,
            written <= width || written == text@.len(),
            out@ == old(out)@ + text@ + Seq::new((written - text@.len()) as nat, |i: int| ' '),
        decreases width - written,
    {
        proof {
            reveal_strlit(" ");
        }
        out.append(" ");
        written = written + 1;
        assert(out@ =~= old(out)@ + text@ + Seq::new(
            (written - text@.len()) as nat,
            |i: int| ' ',
        ));
    }
    assert(out@ =~= old(out)@ + padded(text@, width as nat));
}

/// Appends `n` in decimal to `out`.
pub fn push_decimal(out: &mut String, n: u64)
    ensures
        final(out)@ == old(out)@ + decimal(n as nat),
{
    let digits = decimal_string(n);
    out.append(digits.as_str());
}

/// Appends `n` in decimal, with a leading zero where `n` has one digit.
pub fn push_decimal_two_places(out: &mut String, n: u64)
    ensures
        final(out)@ == old(out)@ + decimal_two_places(n as nat),
{
    if n < 10 {
        proof {
            reveal_strlit("0");
        }
        out.append("0");
        out.append(digit_str(n));
        assert(out@ =~= old(out)@ + seq!['0', digit_char(n as nat)]);
    } else {
        push_decimal(out, n);
    }
}

/// Divides and rounds to the nearest integer, a tie going to the even one.
pub fn divide_round_half_even(n: u128, d: u128) -> (q: u128)
    requires
        d > 0,
    ensures
        q == round_half_even(n as nat, d as nat),
{
    let q: u128 = n / d;
    let r: u128 = n % d;
    // `r < d`, so `d - r` cannot wrap, and `r > d - r` says `2 * r > d`.
    let above: bool = r > d - r;
    let tie: bool = r == d - r;
    if above || (tie && q % 2 == 1) {
        assert(q < u128::MAX) by {
            // A remainder past half of `d` needs `d >= 2`, so `q <= n / 2`.
            assert(r >= 1);
            assert(d >= 2);
            assert(n / d <= n / 2) by (nonlinear_arith)
                requires
                    d >= 2,
            ;
        }
        q + 1
    } else {
        q
    }
}

/// A quotient rounded to the nearest integer is at most one more than the
/// dividend divided by the divisor.
pub proof fn lemma_round_half_even_bound(n: nat, d: nat)
    requires
        d > 0,
    ensures
        round_half_even(n, d) <= n / d + 1,
        d >= 2 ==> round_half_even(n, d) <= n,
        n / d <= round_half_even(n, d),
{
    if d >= 2 {
        let q = n / d;
        let r = n % d;
        assert(n == q * d + r && q * d >= 2 * q) by (nonlinear_arith)
            requires
                d >= 2,
                q == n / d,
                r == n % d,
        ;
    }
}

/// Appends a count of hundredths written with two decimals.
pub fn push_fixed_two_decimals(out: &mut String, hundredths: u64)
    ensures
        final(out)@ == old(out)@ + fixed_two_decimals(hundredths as nat),
{
    proof {
        reveal_strlit(".");
    }
    push_decimal(out, hundredths / 100);
    out.append(".");
    push_decimal_two_places(out, hundredths % 100);
    assert(out@ =~= old(out)@ + fixed_two_decimals(hundredths as nat)) by {
        assert("."@ =~= seq!['.']);
    }
}

/// Appends a count of tenths written with one decimal.
pub fn push_tenths(out: &mut String, tenths: u64)
    ensures
        final(out)@ == old(out)@ + tenths_text(tenths as nat),
{
    proof {
        reveal_strlit(".");
    }
    push_decimal(out, tenths / 10);
    out.append(".");
    out.append(digit_str(tenths % 10));
    assert(out@ =~= old(out)@ + tenths_text(tenths as nat)) by {
        assert("."@ =~= seq!['.']);
    }
}

/// Appends a count of hundredths written with one decimal, rounded half to
/// even.
pub fn push_fixed_one_decimal(out: &mut String, hundredths: u64)
    ensures
        final(out)@ == old(out)@ + fixed_one_decimal(hundredths as nat),
{
    let tenths = divide_round_half_even(hundredths as u128, 10);
    proof {
        lemma_round_half_even_bound(hundredths as nat, 10);
    }
    push_tenths(out, tenths as u64);
}

} // verus!
