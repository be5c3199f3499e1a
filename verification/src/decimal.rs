//! Exact decimal values for the tuning parameters of a request
//! (temperature, top_p, penalties), together with the rendering of
//! unsigned integers and decimals into JSON number text.
//!
//! The remote API takes these parameters as JSON numbers.  The library
//! keeps them as sign / whole part / hundredths, which is exact, and
//! renders them itself, so the number text in the request body is fully
//! specified.

use vstd::prelude::*;
use vstd::string::StringExecFns;

verus! {

/// The character for a digit value below 16 (lowercase hex letters).
pub open spec fn digit_char(d: nat) -> char {
    if d == 0 {
        '0'
    } else if d == 1 {
        '1'
    } else if d == 2 {
        '2'
    } else if d == 3 {
        '3'
    } else if d == 4 {
        '4'
    } else if d == 5 {
        '5'
    } else if d == 6 {
        '6'
    } else if d == 7 {
        '7'
    } else if d == 8 {
        '8'
    } else if d == 9 {
        '9'
    } else if d == 10 {
        'a'
    } else if d == 11 {
        'b'
    } else if d == 12 {
        'c'
    } else if d == 13 {
        'd'
    } else if d == 14 {
        'e'
    } else {
        'f'
    }
}

/// The decimal digit string of a natural number, most significant
/// digit first, with no leading zeros (and `"0"` for zero).
pub open spec fn dec_str(n: nat) -> Seq<char>
    decreases n,
{
    if n < 10 {
        seq![digit_char(n)]
    } else {
        dec_str(n / 10) + seq![digit_char(n % 10)]
    }
}

/// The single character for a digit value below 16.
pub fn digit_str(d: u64) -> (r: &'static str)
    requires
        d < 16,
    ensures
        r@ == seq![digit_char(d as nat)],
{
    let r: &'static str = match d {
        0 => "0",
        1 => "1",
        2 => "2",
        3 => "3",
        4 => "4",
        5 => "5",
        6 => "6",
        7 => "7",
        8 => "8",
        9 => "9",
        10 => "a",
        11 => "b",
        12 => "c",
        13 => "d",
        14 => "e",
        _ => "f",
    };
    proof {
        reveal_strlit("0");
        reveal_strlit("1");
        reveal_strlit("2");
        reveal_strlit("3");
        reveal_strlit("4");
        reveal_strlit("5");
        reveal_strlit("6");
        reveal_strlit("7");
        reveal_strlit("8");
        reveal_strlit("9");
        reveal_strlit("a");
        reveal_strlit("b");
        reveal_strlit("c");
        reveal_strlit("d");
        reveal_strlit("e");
        reveal_strlit("f");
        assert(r@ =~= seq![digit_char(d as nat)]);
    }
    r
}

/// Renders an unsigned integer as its decimal digit string.
pub fn u64_to_string(n: u64) -> (r: String)
    ensures
        r@ == dec_str(n as nat),
{
    if n == 0 {
        return String::from_str(digit_str(0));
    }
    let mut out = String::new();
    let mut m: u64 = n;
    while m > 0
        invariant
            n > 0,
            dec_str(n as nat) == if m > 0 {
                dec_str(m as nat) + out@
            } else {
                out@
            },
        decreases m,
    {
        let ghost m0 = m as nat;
        let ghost out_prev = out@;
        let d: u64 = m % 10;
        let mut piece = String::from_str(digit_str(d));
        piece.append(out.as_str());
        out = piece;
        m = m / 10;
        proof {
            if m > 0 {
                assert(dec_str(n as nat) =~= dec_str(m as nat) + out@);
            } else {
                assert(dec_str(m0) == seq![digit_char(m0)]);
                assert(dec_str(n as nat) =~= out@);
            }
        }
    }
    out
}

/// An exact signed decimal with two fractional digits:
/// the value is `(-1)^neg * (whole + centi/100)`.
#[derive(Clone, Copy, Debug, PartialEq, Eq, Structural)]
pub struct Decimal {
    pub neg: bool,
    pub whole: u32,
    pub centi: u8,
}

/// The JSON number text of a well-formed decimal: an optional minus
/// sign, the whole part, a point, and one or two fractional digits
/// (a trailing zero in the hundredths place is dropped, so the text
/// always has at least one fractional digit, as in `1.0` or `0.75`).
pub open spec fn dec_render(d: Decimal) -> Seq<char> {
    (if d.neg {
        seq!['-']
    } else {
        Seq::<char>::empty()
    }) + dec_str(d.whole as nat) + seq!['.'] + frac_render(d.centi as nat)
}

/// The fractional digit text for a hundredths value below 100.
pub open spec fn frac_render(c: nat) -> Seq<char> {
    if c % 10 == 0 {
        seq![digit_char(c / 10)]
    } else {
        seq![digit_char(c / 10), digit_char(c % 10)]
    }
}

impl Decimal {
    /// A representation is well formed when the hundredths field is a
    /// true two-digit fraction.
    pub open spec fn wf(self) -> bool {
        self.centi < 100
    }

    /// The decimal with the given value in hundredths:
    /// `from_centi(75)` is 0.75, `from_centi(-150)` is -1.5.
    pub fn from_centi(c: i32) -> (d: Decimal)
        ensures
            d.wf(),
            d.neg == (c < 0),
            d.whole as int == (if c >= 0 {
                c as int
            } else {
                -(c as int)
            }) / 100,
            d.centi as int == (if c >= 0 {
                c as int
            } else {
                -(c as int)
            }) % 100,
    {
        let neg = c < 0;
        let a: i64 = if c < 0 {
            -(c as i64)
        } else {
            c as i64
        };
        let whole = (a / 100) as u32;
        let centi = (a % 100) as u8;
        Decimal { neg, whole, centi }
    }

    /// The JSON number text of this decimal.
    pub fn render(&self) -> (r: String)
        requires
            self.wf(),
        ensures
            r@ == dec_render(*self),
    {
        let mut out = String::new();
        if self.neg {
            out.append("-");
        }
        let w = u64_to_string(self.whole as u64);
        out.append(w.as_str());
        out.append(".");
        let hi: u64 = (self.centi / 10) as u64;
        let lo: u64 = (self.centi % 10) as u64;
        out.append(digit_str(hi));
        if lo != 0 {
            out.append(digit_str(lo));
        }
        proof {
            reveal_strlit("-");
            reveal_strlit(".");
            assert("-"@ =~= seq!['-']);
            assert("."@ =~= seq!['.']);
            if self.centi % 10 == 0 {
                assert(frac_render(self.centi as nat) =~= seq![digit_char(hi as nat)]);
            } else {
                assert(frac_render(self.centi as nat) =~= seq![
                    digit_char(hi as nat),
                    digit_char(lo as nat),
                ]);
            }
            assert(out@ =~= dec_render(*self));
        }
        out
    }
}

} // verus!
