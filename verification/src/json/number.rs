//! Numbers as JSON text: decimal numerals, and decimal fractions with a fixed
//! number of digits behind the point.

use vstd::arithmetic::div_mod::lemma_div_denominator;
use vstd::arithmetic::power::lemma_pow0;
use vstd::arithmetic::power::lemma_pow1;
use vstd::arithmetic::power::lemma_pow_adds;
use vstd::arithmetic::power::lemma_pow_positive;
use vstd::arithmetic::power::pow;
use vstd::prelude::*;

verus! {

/// The character for a decimal digit.
pub open spec fn digit_char(d: nat) -> char
    recommends
        d < 10,
{
    if d == 0 {
        '0'
    } else if d == 1 {
        '1'
    } else if d == 2 {
        '2'
    } else if d == 3 {
        '3'
    } else if d == 4 {
        '4'
    } else if d == 5 {
        '5'
    } else if d == 6 {
        '6'
    } else if d == 7 {
        '7'
    } else if d == 8 {
        '8'
    } else {
        '9'
    }
}

/// The decimal numeral of a natural number, without leading zeros.
pub open spec fn decimal_digits(n: nat) -> Seq<char>
    decreases n,
{
    if n < 10 {
        seq![digit_char(n)]
    } else {
        decimal_digits(n / 10).push(digit_char(n % 10))
    }
}

/// The text of one decimal digit.
fn digit_text(d: u64) -> (r: &'static str)
    requires
        d < 10,
    ensures
        r@ == seq![digit_char(d as nat)],
{
    proof {
        reveal_strlit("0");
        reveal_strlit("1");
        reveal_strlit("2");
        reveal_strlit("3");
        reveal_strlit("4");
        reveal_strlit("5");
        reveal_strlit("6");
        reveal_strlit("7");
        reveal_strlit("8");
        reveal_strlit("9");
    }
    let r = if d == 0 {
        "0"
    } else if d == 1 {
        "1"
    } else if d == 2 {
        "2"
    } else if d == 3 {
        "3"
    } else if d == 4 {
        "4"
    } else if d == 5 {
        "5"
    } else if d == 6 {
        "6"
    } else if d == 7 {
        "7"
    } else if d == 8 {
        "8"
    } else {
        "9"
    };
    assert(r@ =~= seq![digit_char(d as nat)]);
    r
}

/// Renders an unsigned integer as a JSON number.
pub fn decimal_text(n: u64) -> (r: String)
    ensures
        r@ == decimal_digits(n as nat),
    decreases n,
{
    if n < 10 {
        digit_text(n).to_owned()
    } else {
        let mut text = decimal_text(n / 10);
        text.append(digit_text(n % 10));
        assert(text@ =~= decimal_digits(n as nat));
        text
    }
}

/// The last `count` decimal digits of a natural number, with zeros in front
/// where the number has fewer.
pub open spec fn trailing_digits(n: nat, count: nat) -> Seq<char>
    decreases count,
{
    if count == 0 {
        Seq::empty()
    } else {
        trailing_digits(n / 10, (count - 1) as nat).push(digit_char(n % 10))
    }
}

/// A non-negative decimal number: `mantissa` divided by ten to the power of
/// `scale`. Written out, it has exactly `scale` digits behind the point.
#[derive(Debug, Clone, Copy, PartialEq, Eq)]
pub struct Decimal {
    pub mantissa: u64,
    pub scale: u8,
}

impl Decimal {
    /// The part in front of the point.
    pub open spec fn whole(self) -> nat {
        (self.mantissa as int / pow(10, self.scale as nat)) as nat
    }

    /// The JSON number that the decimal is written as: the whole part, and,
    /// where the scale is not zero, a point and the digits behind it.
    pub open spec fn text(self) -> Seq<char> {
        if self.scale == 0 {
            decimal_digits(self.mantissa as nat)
        } else {
            decimal_digits(self.whole()) + seq!['.'] + trailing_digits(
                self.mantissa as nat,
                self.scale as nat,
            )
        }
    }

    /// Renders the decimal as a JSON number.
    pub fn to_json(&self) -> (r: String)
        ensures
            r@ == self.text(),
    {
        if self.scale == 0 {
            decimal_text(self.mantissa)
        } else {
            let mut out = decimal_text(shifted(self.mantissa, self.scale));
            out.append(".");
            let digits = trailing_text(self.mantissa, self.scale);
            out.append(digits.as_str());
            proof {
                reveal_strlit(".");
                assert(out@ =~= self.text());
            }
            out
        }
    }
}

/// Drops the last `count` decimal digits of a number.
fn shifted(n: u64, count: u8) -> (r: u64)
    ensures
        r == n as int / pow(10, count as nat),
{
    let mut rest = n;
    let mut done: u8 = 0;
    proof {
        lemma_pow0(10);
    }
    while done < count
        invariant
            done <= count,
            rest == n as int / pow(10, done as nat),
        decreases count - done,
    {
        proof {
            lemma_pow_positive(10, done as nat);
            lemma_div_denominator(n as int, pow(10, done as nat), 10);
            assert(pow(10, (done + 1) as nat) == pow(10, done as nat) * 10) by {
                lemma_pow1(10);
                lemma_pow_adds(10, done as nat, 1);
            }
        }
        rest = rest / 10;
        done = done + 1;
    }
    rest
}

/// Renders the last `count` decimal digits of a number, with zeros in front
/// where the number has fewer.
fn trailing_text(n: u64, count: u8) -> (r: String)
    ensures
        r@ == trailing_digits(n as nat, count as nat),
    decreases count,
{
    if count == 0 {
        String::new()
    } else {
        let mut text = trailing_text(n / 10, count - 1);
        text.append(digit_text(n % 10));
        assert(text@ =~= trailing_digits(n as nat, count as nat));
        text
    }
}

} // verus!
