//! Measured quantities as exact fixed-point numbers.
//!
//! A device reports whole numbers together with a power-of-ten scale factor.
//! The gateway keeps every quantity it compares or publishes as a [`Scaled`]:
//! a whole number of millionths. Comparisons are then comparisons of
//! integers, and the rules on bounds and deviations are exact.

use vstd::prelude::*;

verus! {

/// Millionths in one unit.
pub const MICROS_PER_UNIT: i64 = 1_000_000;

/// A quantity with six decimal places, held as a whole number of millionths.
#[derive(Clone, Copy, Debug, PartialEq, Eq, Structural)]
pub struct Scaled {
    pub micros: i64,
}

/// Ten to the power `n`.
pub open spec fn pow10(n: nat) -> nat
    decreases n,
{
    if n == 0 {
        1
    } else {
        10 * pow10((n - 1) as nat)
    }
}

/// `value` times ten to the power `shift`. Where `shift` is negative, the
/// digits that fall behind the decimal point are cut off.
pub open spec fn shifted(value: int, shift: int) -> int {
    if shift >= 0 {
        value * pow10(shift as nat)
    } else if value >= 0 {
        value / (pow10((-shift) as nat) as int)
    } else {
        -((-value) / (pow10((-shift) as nat) as int))
    }
}

/// `raw` times ten to the power `scale`, in millionths. Digits beyond the
/// sixth decimal place are cut off.
pub open spec fn scaled_micros(raw: int, scale: int) -> int {
    shifted(raw, scale + 6)
}

/// The quantity of `m` millionths, where that fits 64 bits.
pub open spec fn scaled_of(m: int) -> Option<Scaled> {
    if i64::MIN <= m <= i64::MAX {
        Some((Scaled { micros: m as i64 }))
    } else {
        None
    }
}

/// A power of ten is at least one.
pub proof fn lemma_pow10_positive(n: nat)
    ensures
        pow10(n) >= 1,
    decreases n,
{
    if n > 0 {
        lemma_pow10_positive((n - 1) as nat);
    }
}

/// Powers of ten multiply by adding their exponents.
pub proof fn lemma_pow10_add(a: nat, b: nat)
    ensures
        pow10(a + b) == pow10(a) * pow10(b),
    decreases a,
{
    if a == 0 {
        assert(pow10(0 + b) == 1 * pow10(b));
    } else {
        lemma_pow10_add((a - 1) as nat, b);
        assert(pow10(a + b) == 10 * pow10((a - 1 + b) as nat));
        assert(10 * (pow10((a - 1) as nat) * pow10(b)) == (10 * pow10((a - 1) as nat)) * pow10(b))
            by (nonlinear_arith);
    }
}

/// Once a product with a power of ten has left the 64-bit range, a product
/// with a higher power of ten stays outside.
proof fn lemma_overflow_persists(raw: int, k: nat, e: nat)
    requires
        k <= e,
        raw * pow10(k) > i64::MAX || raw * pow10(k) < i64::MIN,
    ensures
        raw * pow10(e) > i64::MAX || raw * pow10(e) < i64::MIN,
{
    let q = pow10((e - k) as nat);
    let x = raw * pow10(k);
    lemma_pow10_positive((e - k) as nat);
    lemma_pow10_add(k, (e - k) as nat);
    assert(raw * pow10(e) == x * q) by (nonlinear_arith)
        requires
            pow10(e) == pow10(k) * q,
            x == raw * pow10(k),
    ;
    assert(x > 0 ==> x * q >= x) by (nonlinear_arith)
        requires
            q >= 1,
    ;
    assert(x < 0 ==> x * q <= x) by (nonlinear_arith)
        requires
            q >= 1,
    ;
}

/// Dividing by a power of ten in steps of ten gives the same as dividing at
/// once.
proof fn lemma_div_step(x: int, k: nat)
    requires
        0 <= x,
    ensures
        (x / (pow10(k) as int)) / 10 == x / (pow10(k + 1) as int),
{
    lemma_pow10_positive(k);
    vstd::arithmetic::div_mod::lemma_div_denominator(x, pow10(k) as int, 10);
    assert(pow10(k + 1) == 10 * pow10(k));
    assert(pow10(k) * 10 == 10 * pow10(k)) by (nonlinear_arith);
}

/// A quotient that has reached zero stays zero under a higher power of ten.
proof fn lemma_div_zero_persists(x: int, k: nat, d: nat)
    requires
        0 <= x,
        k <= d,
        x / (pow10(k) as int) == 0,
    ensures
        x / (pow10(d) as int) == 0,
{
    lemma_pow10_positive(k);
    lemma_pow10_positive((d - k) as nat);
    lemma_pow10_add(k, (d - k) as nat);
    vstd::arithmetic::div_mod::lemma_div_denominator(
        x,
        pow10(k) as int,
        pow10((d - k) as nat) as int,
    );
}

/// Multiplies `raw` by ten to the power `shift`, cutting off what falls
/// behind the decimal point. `None` where the product does not fit 64 bits.
fn shift_decimal(raw: i64, shift: i64) -> (r: Option<i64>)
    requires
        i64::MIN < shift,
    ensures
        r == (if i64::MIN <= shifted(raw as int, shift as int) <= i64::MAX {
            Some(shifted(raw as int, shift as int) as i64)
        } else {
            None
        }),
{
    if shift >= 0 {
        let mut acc: i64 = raw;
        let mut k: i64 = 0;
        proof {
            assert(pow10(0) == 1);
            assert(raw * pow10(0) == raw);
        }
        while k < shift
            invariant
                0 <= k <= shift,
                acc == raw * pow10(k as nat),
            decreases shift - k,
        {
            let next: i128 = (acc as i128) * 10;
            assert(next == raw * pow10((k + 1) as nat)) by (nonlinear_arith)
                requires
                    next == acc * 10,
                    acc == raw * pow10(k as nat),
                    pow10((k + 1) as nat) == 10 * pow10(k as nat),
            ;
            if next > i64::MAX as i128 || next < i64::MIN as i128 {
                proof {
                    lemma_overflow_persists(raw as int, (k + 1) as nat, shift as nat);
                }
                return None;
            }
            acc = next as i64;
            k = k + 1;
        }
        Some(acc)
    } else {
        let places: i64 = -shift;
        let ghost x: int = if raw >= 0 {
            raw as int
        } else {
            -(raw as int)
        };
        let mut mag: u64 = if raw >= 0 {
            raw as u64
        } else {
            (-(raw as i128)) as u64
        };
        let mut k: i64 = 0;
        proof {
            assert(pow10(0) == 1);
            assert(x / (pow10(0) as int) == x);
        }
        while k < places && mag > 0
            invariant
                places == -shift,
                0 <= k <= places,
                0 <= x <= 0x8000_0000_0000_0000,
                mag == x / (pow10(k as nat) as int),
                mag <= x,
            decreases places - k,
        {
            proof {
                lemma_div_step(x, k as nat);
            }
            mag = mag / 10;
            k = k + 1;
        }
        proof {
            if k < places {
                lemma_div_zero_persists(x, k as nat, places as nat);
            }
        }
        if raw >= 0 {
            Some(mag as i64)
        } else {
            Some((-(mag as i128)) as i64)
        }
    }
}

/// Applies a power-of-ten scale factor to a raw reading.
///
/// Returns the scaled quantity, or `None` where it does not fit 64 bits of
/// millionths.
pub fn apply_scale_factor(raw: i64, scale: i32) -> (r: Option<Scaled>)
    ensures
        r == scaled_of(scaled_micros(raw as int, scale as int)),
{
    match shift_decimal(raw, scale as i64 + 6) {
        Some(m) => Some(Scaled { micros: m }),
        None => None,
    }
}

impl Scaled {
    /// The quantity of `units` whole units.
    pub fn from_integer(units: i64) -> (r: Option<Scaled>)
        ensures
            r == scaled_of(units * MICROS_PER_UNIT),
    {
        proof {
            reveal_with_fuel(pow10, 7);
        }
        apply_scale_factor(units, 0)
    }

    /// This quantity times ten to the power `scale`, or `None` where that
    /// does not fit.
    pub fn scale_by(&self, scale: i32) -> (r: Option<Scaled>)
        ensures
            r == scaled_of(shifted(self.micros as int, scale as int)),
    {
        match shift_decimal(self.micros, scale as i64) {
            Some(m) => Some(Scaled { micros: m }),
            None => None,
        }
    }

    /// Whether this quantity lies within the optional bounds, each of them
    /// included.
    pub open spec fn within(&self, min: Option<Scaled>, max: Option<Scaled>) -> bool {
        &&& min matches Some(lo) ==> lo.micros <= self.micros
        &&& max matches Some(hi) ==> self.micros <= hi.micros
    }

    /// Tests the quantity against optional bounds.
    pub fn is_within(&self, min: &Option<Scaled>, max: &Option<Scaled>) -> (r: bool)
        ensures
            r == self.within(*min, *max),
    {
        let above: bool = match min {
            Some(lo) => lo.micros <= self.micros,
            None => true,
        };
        let below: bool = match max {
            Some(hi) => self.micros <= hi.micros,
            None => true,
        };
        above && below
    }
}

} // verus!
