//! Fixed-point quantities.
//!
//! Every metric that the library reckons with (watts, volts, degrees,
//! minutes, percent) is carried as a whole number of thousandths of its
//! unit. Registry fields arrive as integers in milli-units already. Sensor
//! payloads arrive as unsigned integers, binary fixed-point words or IEEE-754
//! single-precision words: they are held exactly, as a [`Dyadic`], and are
//! rounded to the nearest thousandth, ties away from zero, only where they
//! enter a sum, a difference or a text.
use vstd::arithmetic::div_mod::*;
use vstd::arithmetic::mul::*;
use vstd::arithmetic::power2::*;
use vstd::prelude::*;

verus! {

/// The largest magnitude a [`Milli`] produced by this module can have.
pub const MILLI_MAX: i64 = 0x7fff_ffff_ffff_ffff;

/// A quantity in thousandths of its unit: `raw == 1500` stands for 1.5.
#[derive(Clone, Copy, Debug, PartialEq, Eq, Structural, PartialOrd, Ord, Hash)]
pub struct Milli {
    pub raw: i64,
}

/// The thousandths nearest to `m * 2^e`, ties rounded up.
pub open spec fn scaled_thousandths(m: nat, e: int) -> nat {
    if e >= 0 {
        m * 1000 * pow2(e as nat)
    } else {
        (((m * 1000 + pow2((-e - 1) as nat)) as int) / (pow2((-e) as nat) as int)) as nat
    }
}

/// A magnitude cut off at [`MILLI_MAX`].
pub open spec fn clamp_magnitude(v: int) -> int {
    if v > MILLI_MAX {
        MILLI_MAX as int
    } else {
        v
    }
}

/// A value cut off at `-MILLI_MAX` and `MILLI_MAX`.
pub open spec fn clamp(v: int) -> int {
    if v > MILLI_MAX {
        MILLI_MAX as int
    } else if v < -MILLI_MAX {
        -(MILLI_MAX as int)
    } else {
        v
    }
}

/// A magnitude with its sign.
pub open spec fn with_sign(negative: bool, magnitude: int) -> int {
    if negative {
        -magnitude
    } else {
        magnitude
    }
}

/// Integer division that rounds toward zero, as the machine divides.
pub open spec fn div_toward_zero(v: int, n: int) -> int
    recommends
        n > 0,
{
    if v >= 0 {
        v / n
    } else {
        -((-v) / n)
    }
}

/// The quotient of two integers rounded toward zero, as the machine divides.
pub open spec fn quot_toward_zero(a: int, b: int) -> int
    recommends
        b != 0,
{
    let q = (if a < 0 {
        -a
    } else {
        a
    }) / (if b < 0 {
        -b
    } else {
        b
    });
    if (a < 0) != (b < 0) {
        -q
    } else {
        q
    }
}

/// The thousandths of the ratio of two integers, rounded toward zero and cut
/// off at the representable range; zero where the denominator is zero.
pub open spec fn ratio_thousandths(numerator: int, denominator: int) -> int {
    if denominator == 0 {
        0
    } else {
        clamp(quot_toward_zero(numerator * 1000, denominator))
    }
}

/// The thousandths that the dyadic number `±mantissa * 2^exponent` rounds to.
pub open spec fn dyadic_thousandths(negative: bool, mantissa: nat, exponent: int) -> int {
    with_sign(negative, clamp_magnitude(scaled_thousandths(mantissa, exponent) as int))
}

/// The sign bit of an IEEE-754 single-precision word.
pub open spec fn f32_negative(bits: u32) -> bool {
    bits >= 0x8000_0000
}

/// The biased exponent field of an IEEE-754 single-precision word.
pub open spec fn f32_exponent(bits: u32) -> int {
    (bits as int / 0x80_0000) % 256
}

/// The fraction field of an IEEE-754 single-precision word.
pub open spec fn f32_fraction(bits: u32) -> int {
    bits as int % 0x80_0000
}

/// Whether the word encodes a number, and neither an infinity nor a NaN.
pub open spec fn f32_is_finite(bits: u32) -> bool {
    f32_exponent(bits) != 255
}

/// The integer significand of a finite single-precision word.
pub open spec fn f32_mantissa(bits: u32) -> nat {
    if f32_exponent(bits) == 0 {
        f32_fraction(bits) as nat
    } else {
        (f32_fraction(bits) + 0x80_0000) as nat
    }
}

/// The power of two that scales the significand of a finite single-precision word.
pub open spec fn f32_scale(bits: u32) -> int {
    if f32_exponent(bits) == 0 {
        -149
    } else {
        f32_exponent(bits) - 150
    }
}

/// The thousandths that a finite single-precision word rounds to.
pub open spec fn f32_thousandths(bits: u32) -> int {
    dyadic_thousandths(f32_negative(bits), f32_mantissa(bits), f32_scale(bits))
}

/// `2^n` as a machine word.
fn pow2_u64(n: u32) -> (r: u64)
    requires
        n < 64,
    ensures
        r == pow2(n as nat),
{
    let mut r: u64 = 1;
    let mut i: u32 = 0;
    proof {
        lemma2_to64();
    }
    while i < n
        invariant
            i <= n,
            n < 64,
            r == pow2(i as nat),
        decreases n - i,
    {
        proof {
            lemma_pow2_unfold((i + 1) as nat);
            if i + 1 < 63 {
                lemma_pow2_strictly_increases((i + 1) as nat, 63);
            }
            lemma2_to64_rest();
        }
        r = r * 2;
        i = i + 1;
    }
    r
}

impl Milli {
    /// Zero.
    pub fn zero() -> (r: Milli)
        ensures
            r.raw == 0,
    {
        Milli { raw: 0 }
    }

    /// The quantity that is `raw` thousandths.
    pub fn from_raw(raw: i64) -> (r: Milli)
        ensures
            r.raw == raw,
    {
        Milli { raw }
    }

    /// The whole number `units`, cut off at the representable range.
    pub fn from_units(units: i64) -> (r: Milli)
        ensures
            r.raw == clamp(units * 1000),
    {
        let wide: i128 = units as i128 * 1000;
        if wide > MILLI_MAX as i128 {
            Milli { raw: MILLI_MAX }
        } else if wide < -(MILLI_MAX as i128) {
            Milli { raw: -MILLI_MAX }
        } else {
            Milli { raw: wide as i64 }
        }
    }

    /// The dyadic number `±mantissa * 2^exponent`, rounded to the nearest
    /// thousandth with ties away from zero and cut off at the representable
    /// range.
    pub fn from_dyadic(negative: bool, mantissa: u32, exponent: i32) -> (r: Milli)
        ensures
            r.raw == dyadic_thousandths(negative, mantissa as nat, exponent as int),
    {
        let m: u64 = mantissa as u64 * 1000;
        let magnitude: i64 = if exponent >= 0 {
            if m == 0 {
                proof {
                    lemma_mul_basics(pow2(exponent as nat) as int);
                }
                0
            } else if exponent >= 63 {
                proof {
                    lemma2_to64_rest();
                    if exponent > 63 {
                        lemma_pow2_strictly_increases(63, exponent as nat);
                    }
                    lemma_mul_inequality(1, m as int, pow2(exponent as nat) as int);
                    lemma_mul_is_commutative(m as int, pow2(exponent as nat) as int);
                }
                MILLI_MAX
            } else {
                let p: u64 = pow2_u64(exponent as u32);
                proof {
                    lemma2_to64_rest();
                    if exponent < 62 {
                        lemma_pow2_strictly_increases(exponent as nat, 62);
                    }
                    lemma_mul_upper_bound(
                        m as int,
                        0x3e8_0000_0000,
                        p as int,
                        0x4000_0000_0000_0000,
                    );
                }
                let wide: u128 = m as u128 * p as u128;
                if wide > MILLI_MAX as u128 {
                    MILLI_MAX
                } else {
                    wide as i64
                }
            }
        } else {
            let s: i64 = -(exponent as i64);
            if s > 43 {
                proof {
                    lemma2_to64_rest();
                    let half = pow2((s - 1) as nat);
                    if s - 1 > 43 {
                        lemma_pow2_strictly_increases(43, (s - 1) as nat);
                    }
                    lemma_pow2_unfold(s as nat);
                    lemma_basic_div((m + half) as int, pow2(s as nat) as int);
                    assert(0 <= m + half < pow2(s as nat));
                    assert(((m + half) as int) / (pow2(s as nat) as int) == 0);
                }
                0
            } else {
                let half: u64 = pow2_u64((s - 1) as u32);
                proof {
                    lemma2_to64_rest();
                    if s - 1 < 42 {
                        lemma_pow2_strictly_increases((s - 1) as nat, 42);
                    }
                    lemma_pow2_pos((s - 1) as nat);
                    lemma_pow2_unfold(s as nat);
                }
                ((m + half) / (2 * half)) as i64
            }
        };
        if negative {
            Milli { raw: -magnitude }
        } else {
            Milli { raw: magnitude }
        }
    }

    /// The number that an IEEE-754 single-precision word encodes, rounded to
    /// the nearest thousandth; `None` for an infinity or a NaN.
    pub fn from_f32_bits(bits: u32) -> (r: Option<Milli>)
        ensures
            r is Some <==> f32_is_finite(bits),
            r matches Some(v) ==> v.raw == f32_thousandths(bits),
    {
        let negative = bits >= 0x8000_0000;
        let exponent: u32 = (bits / 0x80_0000) % 256;
        let fraction: u32 = bits % 0x80_0000;
        if exponent == 255 {
            None
        } else if exponent == 0 {
            Some(Milli::from_dyadic(negative, fraction, -149))
        } else {
            Some(Milli::from_dyadic(negative, fraction + 0x80_0000, exponent as i32 - 150))
        }
    }

    /// The ratio of two integers in thousandths, rounded toward zero and cut
    /// off at the representable range; zero where the denominator is zero.
    pub fn from_ratio(numerator: i64, denominator: i64) -> (r: Milli)
        ensures
            r.raw == ratio_thousandths(numerator as int, denominator as int),
    {
        if denominator == 0 {
            return Milli { raw: 0 };
        }
        let n: i128 = numerator as i128 * 1000;
        let d: i128 = denominator as i128;
        let n_mag: u128 = if n < 0 {
            (-n) as u128
        } else {
            n as u128
        };
        let d_mag: u128 = if d < 0 {
            (-d) as u128
        } else {
            d as u128
        };
        let q: u128 = n_mag / d_mag;
        proof {
            lemma_div_nonincreasing(n_mag as int, d_mag as int);
            lemma_div_pos_is_pos(n_mag as int, d_mag as int);
        }
        let magnitude: i64 = if q > MILLI_MAX as u128 {
            MILLI_MAX
        } else {
            q as i64
        };
        if (n < 0) != (d < 0) {
            Milli { raw: -magnitude }
        } else {
            Milli { raw: magnitude }
        }
    }

    /// This quantity in percent of another, in thousandths, rounded toward
    /// zero and cut off at the representable range; zero where the other is
    /// zero.
    pub fn percent_of(self, whole: Milli) -> (r: Milli)
        ensures
            r.raw == ratio_thousandths(self.raw * 100, whole.raw as int),
    {
        if whole.raw == 0 {
            return Milli { raw: 0 };
        }
        let n: i128 = self.raw as i128 * 100_000;
        let d: i128 = whole.raw as i128;
        let n_mag: u128 = if n < 0 {
            (-n) as u128
        } else {
            n as u128
        };
        let d_mag: u128 = if d < 0 {
            (-d) as u128
        } else {
            d as u128
        };
        let q: u128 = n_mag / d_mag;
        proof {
            lemma_div_nonincreasing(n_mag as int, d_mag as int);
            lemma_div_pos_is_pos(n_mag as int, d_mag as int);
            assert(self.raw * 100 * 1000 == self.raw * 100_000) by (nonlinear_arith);
        }
        let magnitude: i64 = if q > MILLI_MAX as u128 {
            MILLI_MAX
        } else {
            q as i64
        };
        if (n < 0) != (d < 0) {
            Milli { raw: -magnitude }
        } else {
            Milli { raw: magnitude }
        }
    }

    /// The larger of two quantities.
    pub fn max(self, other: Milli) -> (r: Milli)
        ensures
            r.raw == if self.raw >= other.raw {
                self.raw
            } else {
                other.raw
            },
    {
        if self.raw >= other.raw {
            self
        } else {
            other
        }
    }

    /// The sum, cut off at the representable range.
    pub fn plus(self, other: Milli) -> (r: Milli)
        ensures
            r.raw == clamp(self.raw + other.raw),
    {
        let wide: i128 = self.raw as i128 + other.raw as i128;
        if wide > MILLI_MAX as i128 {
            Milli { raw: MILLI_MAX }
        } else if wide < -(MILLI_MAX as i128) {
            Milli { raw: -MILLI_MAX }
        } else {
            Milli { raw: wide as i64 }
        }
    }

    /// The difference, cut off at the representable range.
    pub fn minus(self, other: Milli) -> (r: Milli)
        ensures
            r.raw == clamp(self.raw - other.raw),
    {
        let wide: i128 = self.raw as i128 - other.raw as i128;
        if wide > MILLI_MAX as i128 {
            Milli { raw: MILLI_MAX }
        } else if wide < -(MILLI_MAX as i128) {
            Milli { raw: -MILLI_MAX }
        } else {
            Milli { raw: wide as i64 }
        }
    }

    /// The product with a whole number, cut off at the representable range.
    pub fn times(self, factor: i64) -> (r: Milli)
        ensures
            r.raw == clamp(self.raw * factor),
    {
        proof {
            lemma_mul_bounds_i64(self.raw as int, factor as int);
        }
        let wide: i128 = self.raw as i128 * factor as i128;
        if wide > MILLI_MAX as i128 {
            Milli { raw: MILLI_MAX }
        } else if wide < -(MILLI_MAX as i128) {
            Milli { raw: -MILLI_MAX }
        } else {
            Milli { raw: wide as i64 }
        }
    }

    /// The quotient by a positive whole number, rounded toward zero.
    pub fn div(self, n: u32) -> (r: Milli)
        requires
            n != 0,
        ensures
            r.raw == div_toward_zero(self.raw as int, n as int),
    {
        let wide: i128 = self.raw as i128;
        if wide >= 0 {
            proof {
                lemma_div_nonincreasing(wide as int, n as int);
                lemma_div_pos_is_pos(wide as int, n as int);
            }
            Milli { raw: (wide / n as i128) as i64 }
        } else {
            proof {
                lemma_div_nonincreasing(-wide as int, n as int);
                lemma_div_pos_is_pos(-wide as int, n as int);
            }
            Milli { raw: (-((-wide) / n as i128)) as i64 }
        }
    }

    /// The magnitude in whole units, with the fraction dropped.
    pub fn abs_floor(self) -> (r: u64)
        ensures
            r == (if self.raw >= 0 {
                self.raw as int
            } else {
                -(self.raw as int)
            }) / 1000,
    {
        let wide: i128 = self.raw as i128;
        if wide >= 0 {
            (wide / 1000) as u64
        } else {
            ((-wide) / 1000) as u64
        }
    }
}

/// Rounding goes to the nearest thousandth. A number scaled up by a power of
/// two is met exactly. For a number scaled down by `2^s`, the result times
/// `2^s` is off the thousandfold of the significand by half of `2^s` at most,
/// and by exactly that half only upwards.
pub proof fn lemma_scaled_is_nearest(m: nat, e: int)
    ensures
        e >= 0 ==> scaled_thousandths(m, e) == m * 1000 * pow2(e as nat),
        e < 0 ==> -pow2((-e) as nat) < 2 * (scaled_thousandths(m, e) * pow2((-e) as nat) - m * 1000)
            <= pow2((-e) as nat),
{
    if e < 0 {
        let s = (-e) as nat;
        let half = pow2((s - 1) as nat) as int;
        let whole = pow2(s) as int;
        let big = (m * 1000 + half) as int;
        lemma_pow2_unfold(s);
        lemma_pow2_pos((s - 1) as nat);
        lemma_fundamental_div_mod(big, whole);
        lemma_mod_bound(big, whole);
        lemma_div_pos_is_pos(big, whole);
        let t = big / whole;
        assert(scaled_thousandths(m, e) == t);
        assert(whole * t == t * whole) by (nonlinear_arith);
    }
}

/// A number as a sensor payload holds it, without rounding: `mantissa` times
/// two to the power of `exponent`, negated where `negative` is set. Unsigned
/// integers, binary fixed-point words and finite single-precision floats are
/// all of this form.
#[derive(Clone, Copy, Debug, PartialEq, Eq, Structural, Hash)]
pub struct Dyadic {
    pub negative: bool,
    pub mantissa: u32,
    pub exponent: i32,
}

/// The smallest exponent of a single-precision float; no number that is
/// decoded has a smaller one.
pub const MIN_EXPONENT: i32 = -149;

impl Dyadic {
    /// The number times `2^149`, a whole number for every exponent from
    /// [`MIN_EXPONENT`] on.
    pub open spec fn scaled(self) -> int
        recommends
            self.exponent >= MIN_EXPONENT,
    {
        with_sign(self.negative, self.mantissa * pow2((self.exponent + 149) as nat))
    }

    /// The thousandths that the number rounds to.
    pub open spec fn thousandths(self) -> int {
        dyadic_thousandths(self.negative, self.mantissa as nat, self.exponent as int)
    }

    /// The number rounded to the nearest thousandth.
    pub open spec fn milli(self) -> Milli {
        Milli { raw: self.thousandths() as i64 }
    }

    /// Whether the number is above `2^-23`, the smallest step of a
    /// single-precision float at one.
    pub open spec fn above_epsilon(self) -> bool {
        &&& !self.negative
        &&& if self.exponent + 23 >= 0 {
            self.mantissa * pow2((self.exponent + 23) as nat) > 1
        } else {
            self.mantissa > pow2((-(self.exponent + 23)) as nat)
        }
    }

    /// The finite single-precision float that a word encodes.
    pub open spec fn of_f32(bits: u32) -> Dyadic {
        Dyadic {
            negative: f32_negative(bits),
            mantissa: f32_mantissa(bits) as u32,
            exponent: f32_scale(bits) as i32,
        }
    }

    /// Zero.
    pub fn zero() -> (r: Dyadic)
        ensures
            r == (Dyadic { negative: false, mantissa: 0, exponent: 0 }),
    {
        Dyadic { negative: false, mantissa: 0, exponent: 0 }
    }

    /// A whole number that is not negative.
    pub fn from_unsigned(n: u32) -> (r: Dyadic)
        ensures
            r == (Dyadic { negative: false, mantissa: n, exponent: 0 }),
    {
        Dyadic { negative: false, mantissa: n, exponent: 0 }
    }

    /// The number that an IEEE-754 single-precision word encodes; `None`
    /// for an infinity or a NaN.
    pub fn from_f32_bits(bits: u32) -> (r: Option<Dyadic>)
        ensures
            r is Some <==> f32_is_finite(bits),
            r matches Some(v) ==> v == Dyadic::of_f32(bits),
    {
        let negative = bits >= 0x8000_0000;
        let exponent: u32 = (bits / 0x80_0000) % 256;
        let fraction: u32 = bits % 0x80_0000;
        if exponent == 255 {
            None
        } else if exponent == 0 {
            Some(Dyadic { negative, mantissa: fraction, exponent: -149 })
        } else {
            Some(Dyadic { negative, mantissa: fraction + 0x80_0000, exponent: exponent as i32 - 150 })
        }
    }

    /// The number rounded to the nearest thousandth, ties away from zero,
    /// cut off at the representable range.
    pub fn to_milli(self) -> (r: Milli)
        ensures
            r == self.milli(),
    {
        Milli::from_dyadic(self.negative, self.mantissa, self.exponent)
    }

    /// Whether the number is above `2^-23`.
    pub fn is_above_epsilon(self) -> (r: bool)
        ensures
            r == self.above_epsilon(),
    {
        if self.negative || self.mantissa == 0 {
            proof {
                if self.exponent + 23 >= 0 {
                    lemma_mul_basics(pow2((self.exponent + 23) as nat) as int);
                }
            }
            return false;
        }
        let k: i64 = self.exponent as i64 + 23;
        if k > 0 {
            proof {
                lemma2_to64();
                lemma_pow2_strictly_increases(0, k as nat);
                lemma_mul_inequality(1, self.mantissa as int, pow2(k as nat) as int);
                lemma_mul_is_commutative(self.mantissa as int, pow2(k as nat) as int);
            }
            true
        } else if k == 0 {
            proof {
                lemma2_to64();
            }
            self.mantissa > 1
        } else if k <= -32 {
            proof {
                lemma2_to64();
                if -k > 32 {
                    lemma_pow2_strictly_increases(32, (-k) as nat);
                }
            }
            false
        } else {
            let bound: u64 = pow2_u64((-k) as u32);
            self.mantissa as u64 > bound
        }
    }
}

impl Default for Dyadic {
    fn default() -> (r: Dyadic)
        ensures
            r == (Dyadic { negative: false, mantissa: 0, exponent: 0 }),
    {
        Dyadic { negative: false, mantissa: 0, exponent: 0 }
    }
}

/// The product of two 64-bit values fits in 128 bits with room to spare.
pub proof fn lemma_mul_bounds_i64(a: int, b: int)
    requires
        -0x8000_0000_0000_0000 <= a <= 0x7fff_ffff_ffff_ffff,
        -0x8000_0000_0000_0000 <= b <= 0x7fff_ffff_ffff_ffff,
    ensures
        -0x4000_0000_0000_0000_0000_0000_0000_0000 <= a * b <= 0x4000_0000_0000_0000_0000_0000_0000_0000,
{
    assert(-0x4000_0000_0000_0000_0000_0000_0000_0000 <= a * b
        <= 0x4000_0000_0000_0000_0000_0000_0000_0000) by (nonlinear_arith)
        requires
            -0x8000_0000_0000_0000 <= a <= 0x7fff_ffff_ffff_ffff,
            -0x8000_0000_0000_0000 <= b <= 0x7fff_ffff_ffff_ffff,
    ;
}

impl Default for Milli {
    fn default() -> (r: Milli)
        ensures
            r.raw == 0,
    {
        Milli { raw: 0 }
    }
}

} // verus!
