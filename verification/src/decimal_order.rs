//! The order of decimal numbers by value, told from their digits alone.

use vstd::prelude::*;
use crate::scalar::{Decimal, DecimalView, mantissa_of};

verus! {

/// Ten to the power of `n`.
pub open spec fn pow10(n: nat) -> nat
    decreases n,
{
    if n == 0 {
        1
    } else {
        10 * pow10((n - 1) as nat)
    }
}

/// The larger of the two scales: the finest unit in which both numbers are
/// whole.
pub open spec fn common_scale(a: DecimalView, b: DecimalView) -> nat {
    if a.scale >= b.scale {
        a.scale
    } else {
        b.scale
    }
}

/// How many units of ten to the power of minus `scale` the number is worth,
/// its sign left aside.
pub open spec fn magnitude(d: DecimalView, scale: nat) -> nat
    recommends
        scale >= d.scale,
{
    mantissa_of(d.digits) * pow10((scale - d.scale) as nat)
}

/// How many units of ten to the power of minus `scale` the number is worth.
pub open spec fn units(d: DecimalView, scale: nat) -> int
    recommends
        scale >= d.scale,
{
    if d.negative {
        -(magnitude(d, scale) as int)
    } else {
        magnitude(d, scale) as int
    }
}

/// Whether `a` is less than `b` in value.
pub open spec fn less(a: DecimalView, b: DecimalView) -> bool {
    units(a, common_scale(a, b)) < units(b, common_scale(a, b))
}

/// Whether `a` and `b` are the same in value, however they are written:
/// `1.50` is `1.5`, and `-0` is `0`.
pub open spec fn same_value(a: DecimalView, b: DecimalView) -> bool {
    units(a, common_scale(a, b)) == units(b, common_scale(a, b))
}

/// Of two numbers one is less than the other or they are the same in
/// value, and no two of these hold together.
pub proof fn lemma_order_is_total(a: DecimalView, b: DecimalView)
    ensures
        less(a, b) || same_value(a, b) || less(b, a),
        !(less(a, b) && same_value(a, b)),
        !(less(a, b) && less(b, a)),
        !(less(b, a) && same_value(a, b)),
        same_value(a, b) == same_value(b, a),
        same_value(a, a),
        !less(a, a),
{
}

/// A run of `n` zero digits.
pub open spec fn zeros(n: nat) -> Seq<u8> {
    Seq::new(n, |i: int| 0u8)
}

/// The digits of a number written with `whole` digits before the point and
/// `scale` digits behind it, zeros put where it has none.
pub open spec fn aligned_digits(d: DecimalView, whole: nat, scale: nat) -> Seq<u8>
    recommends
        d.well_formed(),
        whole + d.scale >= d.digits.len(),
        scale >= d.scale,
{
    zeros((whole + d.scale - d.digits.len()) as nat) + d.digits + zeros((scale - d.scale) as nat)
}

proof fn lemma_zeros_worth_nothing(n: nat)
    ensures
        mantissa_of(zeros(n)) == 0,
    decreases n,
{
    if n > 0 {
        lemma_zeros_worth_nothing((n - 1) as nat);
        assert(zeros(n).drop_last() =~= zeros((n - 1) as nat));
    }
}

proof fn lemma_leading_zeros(n: nat, digits: Seq<u8>)
    ensures
        mantissa_of(zeros(n) + digits) == mantissa_of(digits),
    decreases digits.len(),
{
    if digits.len() == 0 {
        lemma_zeros_worth_nothing(n);
        assert(zeros(n) + digits =~= zeros(n));
    } else {
        lemma_leading_zeros(n, digits.drop_last());
        assert((zeros(n) + digits).drop_last() =~= zeros(n) + digits.drop_last());
    }
}

proof fn lemma_trailing_zeros(digits: Seq<u8>, n: nat)
    ensures
        mantissa_of(digits + zeros(n)) == mantissa_of(digits) * pow10(n),
    decreases n,
{
    if n == 0 {
        assert(digits + zeros(n) =~= digits);
    } else {
        lemma_trailing_zeros(digits, (n - 1) as nat);
        assert((digits + zeros(n)).drop_last() =~= digits + zeros((n - 1) as nat));
        let m = mantissa_of(digits);
        let p = pow10((n - 1) as nat);
        assert(m * p * 10 == m * (10 * p)) by (nonlinear_arith);
    }
}

/// Written out to a common scale, a number is worth its magnitude at that
/// scale.
proof fn lemma_aligned_worth(d: DecimalView, whole: nat, scale: nat)
    requires
        d.well_formed(),
        whole + d.scale >= d.digits.len(),
        scale >= d.scale,
    ensures
        mantissa_of(aligned_digits(d, whole, scale)) == magnitude(d, scale),
{
    let lead = (whole + d.scale - d.digits.len()) as nat;
    let trail = (scale - d.scale) as nat;
    lemma_trailing_zeros(zeros(lead) + d.digits, trail);
    lemma_leading_zeros(lead, d.digits);
}

fn write_aligned(d: &Decimal, whole: usize, scale: usize) -> (out: Vec<u8>)
    requires
        d@.well_formed(),
        whole + d.scale >= d.digits@.len(),
        scale >= d.scale,
    ensures
        out@ == aligned_digits(d@, whole as nat, scale as nat),
        forall|i: int| 0 <= i < out@.len() ==> #[trigger] out@[i] <= 9,
{
    let lead = whole - (d.digits.len() - d.scale);
    let trail = scale - d.scale;
    let mut out: Vec<u8> = Vec::new();
    let mut i: usize = 0;
    while i < lead
        invariant
            i <= lead,
            out@ == zeros(i as nat),
        decreases lead - i,
    {
        out.push(0);
        proof {
            assert(out@ =~= zeros((i + 1) as nat));
        }
        i = i + 1;
    }
    let mut j: usize = 0;
    while j < d.digits.len()
        invariant
            j <= d.digits@.len(),
            d@.well_formed(),
            out@ == zeros(lead as nat) + d.digits@.take(j as int),
            forall|i: int| 0 <= i < out@.len() ==> #[trigger] out@[i] <= 9,
        decreases d.digits@.len() - j,
    {
        out.push(d.digits[j]);
        proof {
            assert(out@ =~= zeros(lead as nat) + d.digits@.take(j + 1));
        }
        j = j + 1;
    }
    proof {
        assert(d.digits@.take(j as int) =~= d.digits@);
    }
    let mut k: usize = 0;
    while k < trail
        invariant
            k <= trail,
            out@ == zeros(lead as nat) + d.digits@ + zeros(k as nat),
            forall|i: int| 0 <= i < out@.len() ==> #[trigger] out@[i] <= 9,
        decreases trail - k,
    {
        out.push(0);
        proof {
            assert(out@ =~= zeros(lead as nat) + d.digits@ + zeros((k + 1) as nat));
        }
        k = k + 1;
    }
    out
}

/// How two numbers stand to each other once their signs are left aside.
#[derive(Clone, Copy, Debug, PartialEq, Eq, Structural)]
pub enum Standing {
    Smaller,
    Same,
    Larger,
}

/// How `a` stands to `b`.
pub open spec fn standing_of(a: nat, b: nat) -> Standing {
    if a < b {
        Standing::Smaller
    } else if a == b {
        Standing::Same
    } else {
        Standing::Larger
    }
}

fn digits_standing(x: &Vec<u8>, y: &Vec<u8>) -> (r: Standing)
    requires
        x@.len() == y@.len(),
        forall|i: int| 0 <= i < x@.len() ==> #[trigger] x@[i] <= 9,
        forall|i: int| 0 <= i < y@.len() ==> #[trigger] y@[i] <= 9,
    ensures
        r == standing_of(mantissa_of(x@), mantissa_of(y@)),
{
    let mut r = Standing::Same;
    let mut k: usize = 0;
    while k < x.len()
        invariant
            k <= x@.len(),
            x@.len() == y@.len(),
            forall|i: int| 0 <= i < x@.len() ==> #[trigger] x@[i] <= 9,
            forall|i: int| 0 <= i < y@.len() ==> #[trigger] y@[i] <= 9,
            r == standing_of(mantissa_of(x@.take(k as int)), mantissa_of(y@.take(k as int))),
        decreases x@.len() - k,
    {
        proof {
            assert(x@.take(k + 1).drop_last() =~= x@.take(k as int));
            assert(y@.take(k + 1).drop_last() =~= y@.take(k as int));
            assert(x@.take(k + 1).last() == x@[k as int]);
            assert(y@.take(k + 1).last() == y@[k as int]);
        }
        if r == Standing::Same {
            if x[k] < y[k] {
                r = Standing::Smaller;
            } else if x[k] > y[k] {
                r = Standing::Larger;
            }
        }
        k = k + 1;
    }
    proof {
        assert(x@.take(k as int) =~= x@);
        assert(y@.take(k as int) =~= y@);
    }
    r
}

fn larger_of(a: usize, b: usize) -> (m: usize)
    ensures
        m == if a >= b {
            a
        } else {
            b
        },
{
    if a >= b {
        a
    } else {
        b
    }
}

impl Decimal {
    /// How the two numbers stand to each other, their signs left aside.
    pub fn magnitude_standing(&self, other: &Decimal) -> (r: Standing)
        requires
            self@.well_formed(),
            other@.well_formed(),
        ensures
            r == standing_of(
                magnitude(self@, common_scale(self@, other@)),
                magnitude(other@, common_scale(self@, other@)),
            ),
    {
        let scale = larger_of(self.scale, other.scale);
        let whole = larger_of(self.digits.len() - self.scale, other.digits.len() - other.scale);
        let x = write_aligned(self, whole, scale);
        let y = write_aligned(other, whole, scale);
        proof {
            lemma_aligned_worth(self@, whole as nat, scale as nat);
            lemma_aligned_worth(other@, whole as nat, scale as nat);
        }
        digits_standing(&x, &y)
    }

    /// Whether the number is zero, with either sign.
    pub fn is_zero(&self) -> (r: bool)
        ensures
            r == (mantissa_of(self@.digits) == 0),
    {
        let mut k: usize = 0;
        while k < self.digits.len()
            invariant
                k <= self.digits@.len(),
                mantissa_of(self.digits@.take(k as int)) == 0,
            decreases self.digits@.len() - k,
        {
            proof {
                assert(self.digits@.take(k + 1).drop_last() =~= self.digits@.take(k as int));
                assert(self.digits@.take(k + 1).last() == self.digits@[k as int]);
            }
            if self.digits[k] != 0 {
                proof {
                    lemma_nonzero_prefix(self.digits@, k + 1);
                }
                return false;
            }
            k = k + 1;
        }
        proof {
            assert(self.digits@.take(k as int) =~= self.digits@);
        }
        true
    }

    /// Whether this number is less than the other in value.
    pub fn lt(&self, other: &Decimal) -> (r: bool)
        requires
            self@.well_formed(),
            other@.well_formed(),
        ensures
            r == less(self@, other@),
    {
        let standing = self.magnitude_standing(other);
        proof {
            lemma_magnitude_zero(self@, common_scale(self@, other@));
            lemma_magnitude_zero(other@, common_scale(self@, other@));
        }
        if self.negative {
            if other.negative {
                standing == Standing::Larger
            } else {
                !(self.is_zero() && other.is_zero())
            }
        } else {
            if other.negative {
                false
            } else {
                standing == Standing::Smaller
            }
        }
    }

    /// Whether the two numbers are the same in value.
    pub fn same_value(&self, other: &Decimal) -> (r: bool)
        requires
            self@.well_formed(),
            other@.well_formed(),
        ensures
            r == same_value(self@, other@),
    {
        let standing = self.magnitude_standing(other);
        proof {
            lemma_magnitude_zero(self@, common_scale(self@, other@));
            lemma_magnitude_zero(other@, common_scale(self@, other@));
        }
        if self.negative == other.negative {
            standing == Standing::Same
        } else {
            self.is_zero() && other.is_zero()
        }
    }
}

/// Digits of which one prefix is worth something are worth something.
proof fn lemma_nonzero_prefix(digits: Seq<u8>, k: int)
    requires
        0 <= k <= digits.len(),
        mantissa_of(digits.take(k)) > 0,
    ensures
        mantissa_of(digits) > 0,
    decreases digits.len() - k,
{
    if k == digits.len() {
        assert(digits.take(k) =~= digits);
    } else {
        assert(digits.take(k + 1).drop_last() =~= digits.take(k));
        lemma_nonzero_prefix(digits, k + 1);
    }
}

/// A number is worth nothing at a scale exactly if its digits are worth
/// nothing.
proof fn lemma_magnitude_zero(d: DecimalView, scale: nat)
    ensures
        magnitude(d, scale) == 0 <==> mantissa_of(d.digits) == 0,
{
    let m = mantissa_of(d.digits);
    let p = pow10((scale - d.scale) as nat);
    lemma_pow10_positive((scale - d.scale) as nat);
    assert(p > 0 ==> (m * p == 0 <==> m == 0)) by (nonlinear_arith);
}

proof fn lemma_pow10_positive(n: nat)
    ensures
        pow10(n) > 0,
    decreases n,
{
    if n > 0 {
        lemma_pow10_positive((n - 1) as nat);
    }
}

} // verus!
