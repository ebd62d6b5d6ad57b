//! Numbers for readings and derived quantities.
//!
//! A [`Binary64`] is a float as a source stores it, kept bit for bit. A
//! [`Fixed`] is a decimal with six fractional digits, and a [`Ratio`] an
//! exact quotient of two integers. A derived quantity takes a float to the
//! nearest decimal once and is computed without rounding from there, so
//! that the contracts can state the formulas as they are written on paper.
use vstd::arithmetic::div_mod::lemma_div_is_ordered;
use vstd::arithmetic::div_mod::lemma_div_multiples_vanish_quotient;
use vstd::arithmetic::div_mod::lemma_hoist_over_denominator;
use vstd::arithmetic::power2::lemma2_to64;
use vstd::arithmetic::power2::lemma2_to64_rest;
use vstd::arithmetic::power2::lemma_pow2_adds;
use vstd::arithmetic::power2::lemma_pow2_pos;
use vstd::arithmetic::power2::lemma_pow2_strictly_increases;
use vstd::arithmetic::power2::lemma_pow2_unfold;
use vstd::arithmetic::power2::pow2;
use vstd::prelude::*;

verus! {

/// Number of [`Fixed`] units in one whole.
pub const MICROS_PER_UNIT: u64 = 1_000_000;

/// Quotient of `a` by a positive `b`, rounded toward zero.
pub open spec fn trunc_div(a: int, b: int) -> int {
    if a >= 0 {
        a / b
    } else {
        -((-a) / b)
    }
}

/// `x` clamped to the range of `i32`.
pub open spec fn saturate_i32(x: int) -> int {
    if x < i32::MIN {
        i32::MIN as int
    } else if x > i32::MAX {
        i32::MAX as int
    } else {
        x
    }
}

/// A decimal number with six fractional digits, held as a count of
/// millionths.
#[derive(Clone, Copy, Debug, PartialEq, Eq, Structural)]
pub struct Fixed {
    pub micros: i64,
}

/// `x` clamped to the range of `i64`.
pub open spec fn saturate_i64(x: int) -> int {
    if x < i64::MIN {
        i64::MIN as int
    } else if x > i64::MAX {
        i64::MAX as int
    } else {
        x
    }
}

/// The sign bit of a [`Binary64`].
pub const SIGN_BIT: u64 = 0x8000_0000_0000_0000;

/// Number of values of the fraction field of a [`Binary64`]: two to the 52.
pub const FRACTION_RANGE: u64 = 0x10_0000_0000_0000;

/// Number of values of the exponent field of a [`Binary64`]: two to the 11.
pub const EXPONENT_RANGE: u64 = 0x800;

/// The exponent field of an infinity and of a NaN.
pub const EXPONENT_SPECIAL: u64 = 0x7ff;

/// A double-precision floating-point number, held as its 64 bits in the
/// IEEE 754 binary64 interchange format: a sign bit, an exponent field of
/// 11 bits and a fraction field of 52 bits, from the top down.
#[derive(Clone, Copy, Debug, PartialEq, Eq, Structural)]
pub struct Binary64 {
    pub bits: u64,
}

impl Binary64 {
    /// Whether the sign bit is set.
    pub open spec fn sign_negative(self) -> bool {
        self.bits >= SIGN_BIT
    }

    /// The exponent field.
    pub open spec fn exponent_field(self) -> int {
        (self.bits / FRACTION_RANGE) as int % (EXPONENT_RANGE as int)
    }

    /// The fraction field.
    pub open spec fn fraction_field(self) -> int {
        self.bits as int % (FRACTION_RANGE as int)
    }

    /// Whether the bits are a NaN.
    pub open spec fn is_nan(self) -> bool {
        self.exponent_field() == EXPONENT_SPECIAL && self.fraction_field() != 0
    }

    /// Whether the bits are an infinity.
    pub open spec fn is_infinite(self) -> bool {
        self.exponent_field() == EXPONENT_SPECIAL && self.fraction_field() == 0
    }

    /// The integer of which a finite number is a binary fraction: the
    /// fraction field, with the implicit leading bit for a normal number.
    pub open spec fn significand(self) -> int {
        if self.exponent_field() == 0 {
            self.fraction_field()
        } else {
            self.fraction_field() + FRACTION_RANGE
        }
    }

    /// The number of binary places of a finite number: its magnitude is
    /// `significand / 2^places`, and `significand * 2^(-places)` where the
    /// count is negative.
    pub open spec fn binary_places(self) -> int {
        if self.exponent_field() == 0 {
            1074
        } else {
            1075 - self.exponent_field()
        }
    }

    /// The magnitude of a finite number in millionths, rounded to the
    /// nearest whole millionth, a tie away from zero.
    pub open spec fn micros_magnitude(self) -> int {
        let scaled = self.significand() * MICROS_PER_UNIT;
        let places = self.binary_places();
        if places <= 0 {
            scaled * pow2((-places) as nat)
        } else {
            (scaled + pow2((places - 1) as nat)) / (pow2(places as nat) as int)
        }
    }

    /// The number in millionths, as an `i64`: rounded to the nearest whole
    /// millionth, clamped to the range of `i64`, and zero for a NaN.
    pub open spec fn spec_micros(self) -> int {
        if self.is_nan() {
            0
        } else if self.is_infinite() {
            if self.sign_negative() {
                i64::MIN as int
            } else {
                i64::MAX as int
            }
        } else if self.sign_negative() {
            saturate_i64(-self.micros_magnitude())
        } else {
            saturate_i64(self.micros_magnitude())
        }
    }

    /// The decimal nearest to the number: `spec_micros` millionths.
    pub open spec fn spec_fixed(self) -> Fixed {
        Fixed { micros: self.spec_micros() as i64 }
    }
}

/// Two to the power `e`.
fn power_of_two(e: u64) -> (p: u128)
    requires
        e <= 100,
    ensures
        p == pow2(e as nat),
{
    let mut p: u128 = 1;
    let mut i: u64 = 0;
    proof {
        lemma2_to64();
        lemma2_to64_rest();
        lemma_pow2_adds(64, 36);
    }
    while i < e
        invariant
            i <= e <= 100,
            p == pow2(i as nat),
            pow2(100) == 0x1_0000_0000_0000_0000 * 0x10_0000_0000,
        decreases e - i,
    {
        proof {
            lemma_pow2_unfold((i + 1) as nat);
            if i + 1 < 100 {
                lemma_pow2_strictly_increases((i + 1) as nat, 100);
            }
        }
        p = p * 2;
        i += 1;
    }
    p
}

/// The mathematical value of a [`Ratio`]: the quotient `numer / denom` of
/// two integers, kept as a pair.
pub ghost struct Quotient {
    pub numer: int,
    pub denom: int,
}

impl Quotient {
    /// Whether the quotient is the whole number `n`.
    pub open spec fn is_integer(self, n: int) -> bool {
        self.denom > 0 && self.numer == n * self.denom
    }

    /// Ten times the value, rounded toward zero and clamped to `i32`.
    pub open spec fn tenths(self) -> int {
        saturate_i32(trunc_div(10 * self.numer, self.denom))
    }
}

/// An exact rational number `numer / denom` with a positive denominator.
///
/// The pair is kept as computed, not reduced to lowest terms.
#[derive(Clone, Copy, Debug)]
pub struct Ratio {
    num: i128,
    den: u64,
}

impl View for Ratio {
    type V = Quotient;

    closed spec fn view(&self) -> Quotient {
        Quotient { numer: self.num as int, denom: self.den as int }
    }
}

impl Ratio {
    #[verifier::type_invariant]
    spec fn inv(self) -> bool {
        self.den > 0
    }

    /// The numerator.
    pub open spec fn numer(self) -> int {
        self@.numer
    }

    /// The denominator.
    pub open spec fn denom(self) -> int {
        self@.denom
    }

    /// Ten times the value, rounded toward zero and clamped to `i32`.
    pub open spec fn spec_tenths(self) -> int {
        self@.tenths()
    }

    /// `num / den`, or `None` when `den` is zero.
    pub fn new(num: i128, den: u64) -> (r: Option<Ratio>)
        ensures
            r is None <==> den == 0,
            r matches Some(q) ==> q.numer() == num && q.denom() == den,
    {
        if den == 0 {
            None
        } else {
            Some(Ratio { num, den })
        }
    }

    /// The whole number `n`, as `n / 1`.
    pub fn from_integer(n: i64) -> (r: Ratio)
        ensures
            r.numer() == n,
            r.denom() == 1,
    {
        Ratio { num: n as i128, den: 1 }
    }

    pub fn num(&self) -> (n: i128)
        ensures
            n == self.numer(),
    {
        self.num
    }

    pub fn den(&self) -> (d: u64)
        ensures
            d == self.denom(),
            d > 0,
    {
        proof {
            use_type_invariant(self);
        }
        self.den
    }

    /// Ten times the value, rounded toward zero, saturating at the bounds of
    /// `i32`.
    pub fn tenths(&self) -> (t: i32)
        ensures
            t == self.spec_tenths(),
    {
        proof {
            use_type_invariant(self);
        }
        let den: u128 = self.den as u128;
        let negative = self.num < 0;
        let mag: u128 = if self.num == i128::MIN {
            0x8000_0000_0000_0000_0000_0000_0000_0000u128
        } else if negative {
            (-self.num) as u128
        } else {
            self.num as u128
        };
        let q: u128 = mag / den;
        let r: u128 = mag % den;
        proof {
            let d = den as int;
            // 10 * mag == 10 * r + (10 * q) * d
            assert(mag as int == d * (q as int) + r as int) by (nonlinear_arith)
                requires
                    q == mag / den,
                    r == mag % den,
                    den > 0,
                    d == den,
            ;
            assert(10 * (mag as int) == 10 * (r as int) + (10 * (q as int)) * d)
                by (nonlinear_arith)
                requires
                    mag as int == d * (q as int) + r as int,
            ;
            lemma_hoist_over_denominator(10 * (r as int), 10 * (q as int), d as nat);
            assert((10 * (mag as int)) / d == (10 * (r as int)) / d + 10 * (q as int));
            lemma_div_is_ordered(0, 10 * (r as int), d);
        }
        if q > 214_748_364 {
            if negative {
                i32::MIN
            } else {
                i32::MAX
            }
        } else {
            let v: u128 = 10 * q + (10 * r) / den;
            proof {
                let d = den as int;
                assert((10 * (r as int)) / d <= 9) by {
                    lemma_div_is_ordered(10 * (r as int), 10 * d - 1, d);
                    lemma_hoist_over_denominator(-1, 10, d as nat);
                    assert((-1int) / d == -1) by (nonlinear_arith)
                        requires
                            d > 0,
                    ;
                }
            }
            if negative {
                if v > 2_147_483_648 {
                    i32::MIN
                } else {
                    (-(v as i64)) as i32
                }
            } else {
                if v > 2_147_483_647 {
                    i32::MAX
                } else {
                    v as i32
                }
            }
        }
    }
}

/// The tenths of a decimal are its millionths divided by a hundred
/// thousand, rounded toward zero and clamped to `i32`.
pub proof fn lemma_fixed_tenths(micros: int)
    ensures
        (Quotient { numer: micros, denom: MICROS_PER_UNIT as int }).tenths() == saturate_i32(
            trunc_div(micros, 100_000),
        ),
{
    if micros >= 0 {
        lemma_div_multiples_vanish_quotient(10, micros, 100_000);
    } else {
        lemma_div_multiples_vanish_quotient(10, -micros, 100_000);
    }
}

impl Fixed {
    /// The decimal nearest to a float: rounded to the nearest millionth, a
    /// tie away from zero. A float beyond the range of `Fixed` gives the
    /// nearest bound, and a NaN gives zero.
    pub fn from_binary64(x: Binary64) -> (f: Fixed)
        ensures
            f.micros == x.spec_micros(),
            f == x.spec_fixed(),
    {
        let negative = x.bits >= SIGN_BIT;
        let exponent: u64 = (x.bits / FRACTION_RANGE) % EXPONENT_RANGE;
        let fraction: u64 = x.bits % FRACTION_RANGE;
        if exponent == EXPONENT_SPECIAL {
            if fraction != 0 {
                return Fixed { micros: 0 };
            }
            return Fixed { micros: if negative { i64::MIN } else { i64::MAX } };
        }
        let significand: u64 = if exponent == 0 {
            fraction
        } else {
            fraction + FRACTION_RANGE
        };
        let scaled: u128 = significand as u128 * 1_000_000;
        let limit: u128 = SIGN_BIT as u128;
        // The magnitude in millionths, or `limit` where it is larger.
        let magnitude: u128 = if exponent >= 1075 {
            proof {
                let up = pow2((exponent - 1075) as nat) as int;
                lemma_pow2_pos((exponent - 1075) as nat);
                assert(scaled * up >= scaled) by (nonlinear_arith)
                    requires
                        up >= 1,
                        scaled >= 0,
                ;
            }
            limit
        } else {
            let places: u64 = if exponent == 0 {
                1074
            } else {
                1075 - exponent
            };
            if places >= 75 {
                proof {
                    let half = pow2((places - 1) as nat) as int;
                    lemma2_to64();
                    lemma2_to64_rest();
                    lemma_pow2_adds(64, 10);
                    if places > 75 {
                        lemma_pow2_strictly_increases(74, (places - 1) as nat);
                    }
                    lemma_pow2_unfold(places as nat);
                    assert(0 <= scaled + half < 2 * half);
                    assert((scaled + half) / (2 * half) == 0) by (nonlinear_arith)
                        requires
                            0 <= scaled + half < 2 * half,
                    ;
                }
                0
            } else {
                let half = power_of_two(places - 1);
                proof {
                    lemma2_to64();
                    lemma2_to64_rest();
                    lemma_pow2_adds(64, 9);
                    if places < 74 {
                        lemma_pow2_strictly_increases((places - 1) as nat, 73);
                    }
                    lemma_pow2_unfold(places as nat);
                    lemma_pow2_pos((places - 1) as nat);
                }
                let rounded = (scaled + half) / (2 * half);
                if rounded > limit {
                    limit
                } else {
                    rounded
                }
            }
        };
        assert(magnitude == if x.micros_magnitude() > limit {
            limit as int
        } else {
            x.micros_magnitude()
        });
        if negative {
            if magnitude >= limit {
                Fixed { micros: i64::MIN }
            } else {
                Fixed { micros: -(magnitude as i64) }
            }
        } else {
            if magnitude > i64::MAX as u128 {
                Fixed { micros: i64::MAX }
            } else {
                Fixed { micros: magnitude as i64 }
            }
        }
    }

    /// The same number as a quotient by one million.
    pub fn to_ratio(self) -> (r: Ratio)
        ensures
            r.numer() == self.micros,
            r.denom() == MICROS_PER_UNIT,
    {
        Ratio { num: self.micros as i128, den: MICROS_PER_UNIT }
    }
}

} // verus!
