//! Decimal parameters of apertures and transformations.
use vstd::prelude::*;

use crate::text::{nat_text, padded_text, push_nat, push_padded};

verus! {

/// `(f, k)` with trailing zero digits removed from the `k`-digit fraction `f`.
pub open spec fn trimmed_fraction(f: nat, k: nat) -> (nat, nat)
    decreases k,
{
    if k > 0 && f % 10 == 0 {
        trimmed_fraction(f / 10, (k - 1) as nat)
    } else {
        (f, k)
    }
}

/// The digits after the decimal point of a 6-digit fraction, with a leading
/// `.`, or nothing when the fraction is zero.
pub open spec fn fraction_text(f: nat) -> Seq<char> {
    let (g, k) = trimmed_fraction(f, 6);
    if k == 0 {
        Seq::empty()
    } else {
        seq!['.'] + padded_text(g, k)
    }
}

/// The plain decimal text of `micros` millionths: sign, integer part, and
/// the fraction without trailing zeros (`4`, `4.5`, `-0.25`, `0.000001`).
pub open spec fn decimal_text(micros: int) -> Seq<char> {
    let m = if micros < 0 {
        -micros
    } else {
        micros
    };
    let sign = if micros < 0 {
        seq!['-']
    } else {
        Seq::empty()
    };
    sign + nat_text((m / 1_000_000) as nat) + fraction_text((m % 1_000_000) as nat)
}

/// A decimal number with six decimal places, stored in millionths.
#[derive(Debug, Copy, Clone, PartialEq, Eq, Structural)]
pub struct Decimal {
    pub micros: i64,
}

impl Decimal {
    pub fn new(micros: i64) -> (r: Self)
        ensures
            r.micros == micros,
    {
        Decimal { micros }
    }

    /// The whole number `value`.
    pub fn from_int(value: i32) -> (r: Self)
        ensures
            r.micros == value as int * 1_000_000,
    {
        Decimal { micros: value as i64 * 1_000_000 }
    }

    pub open spec fn spec_text(self) -> Seq<char> {
        decimal_text(self.micros as int)
    }

    /// Appends the decimal text of the value.
    pub fn push_text(&self, out: &mut String)
        ensures
            final(out)@ == old(out)@ + self.spec_text(),
    {
        let negative = self.micros < 0;
        let m: u64 = if negative {
            (-(self.micros as i128)) as u64
        } else {
            self.micros as u64
        };
        if negative {
            out.append("-");
        }
        let ghost after_sign = out@;
        push_nat(out, m / 1_000_000);
        let ghost after_int = out@;
        let mut f: u64 = m % 1_000_000;
        let mut k: u64 = 6;
        while k > 0 && f % 10 == 0
            invariant
                k <= 6,
                trimmed_fraction(f as nat, k as nat) == trimmed_fraction(
                    (m % 1_000_000) as nat,
                    6,
                ),
            decreases k,
        {
            f = f / 10;
            k = k - 1;
        }
        if k > 0 {
            out.append(".");
            push_padded(out, f, k);
        }
        proof {
            reveal_strlit("-");
            reveal_strlit(".");
            assert(out@ =~= old(out)@ + self.spec_text());
        }
    }
}

} // verus!
