//! Fixed-point numbers with sixteen fractional bits.
//!
//! A [`Fixed`] stores a number as a whole count of steps of `1 / 65536`. Its
//! view is that count, the *raw value*, and every operation is specified as
//! integer arithmetic on raw values. Results that would leave the range are
//! clamped to the nearest end of it; quotients round towards zero.

use vstd::prelude::*;

verus! {

/// The raw value of the number one: `2^16`.
pub const ONE_RAW: i64 = 65536;

/// The largest raw magnitude a [`Fixed`] can hold: `2^47`, the raw value of `2^31`.
pub const LIMIT_RAW: i64 = 140737488355328;

/// Whether `v` is the raw value of some [`Fixed`].
pub open spec fn in_range(v: int) -> bool {
    -LIMIT_RAW <= v <= LIMIT_RAW
}

/// The raw value nearest to `v` that a [`Fixed`] can hold.
pub open spec fn clamp(v: int) -> int {
    if v < -LIMIT_RAW {
        -LIMIT_RAW
    } else if v > LIMIT_RAW {
        LIMIT_RAW as int
    } else {
        v
    }
}

/// The quotient of `a` by `b`, rounded towards zero. Meaningful for `b != 0`.
pub open spec fn quot(a: int, b: int) -> int {
    if b > 0 {
        if a >= 0 {
            a / b
        } else {
            -((-a) / b)
        }
    } else {
        if a >= 0 {
            -(a / (-b))
        } else {
            (-a) / (-b)
        }
    }
}

/// What is left over after [`quot`] has the sign of `a`, or is zero, and is
/// smaller in magnitude than `b`: the quotient is rounded towards zero.
pub proof fn lemma_quot_rounds_towards_zero(a: int, b: int)
    requires
        b != 0,
    ensures
        a >= 0 ==> a - quot(a, b) * b >= 0,
        a <= 0 ==> a - quot(a, b) * b <= 0,
        b > 0 ==> -b < a - quot(a, b) * b < b,
        b < 0 ==> b < a - quot(a, b) * b < -b,
{
    let x: int = if a >= 0 {
        a
    } else {
        -a
    };
    let d: int = if b > 0 {
        b
    } else {
        -b
    };
    assert(0 <= x - (x / d) * d < d) by (nonlinear_arith)
        requires
            x >= 0,
            d > 0,
    ;
    assert((-(x / d)) * b == -((x / d) * b)) by (nonlinear_arith);
    assert((x / d) * (-b) == -((x / d) * b)) by (nonlinear_arith);
}

/// Raw value of the whole number `n`.
pub open spec fn whole(n: int) -> int {
    n * ONE_RAW
}

/// Raw value of the sum of the numbers with raw values `a` and `b`.
pub open spec fn sum(a: int, b: int) -> int {
    clamp(a + b)
}

/// Raw value of the difference of the numbers with raw values `a` and `b`.
pub open spec fn difference(a: int, b: int) -> int {
    clamp(a - b)
}

/// Raw value of the product of the numbers with raw values `a` and `b`.
pub open spec fn product(a: int, b: int) -> int {
    clamp(quot(a * b, ONE_RAW as int))
}

/// Raw value of the quotient of the numbers with raw values `a` and `b`.
/// Meaningful for `b != 0`.
pub open spec fn ratio(a: int, b: int) -> int {
    clamp(quot(a * ONE_RAW, b))
}

/// Raw value of half the number with raw value `a`.
pub open spec fn half(a: int) -> int {
    quot(a, 2)
}

/// Raw value of the sign of the number with raw value `a`: one, minus one or zero.
pub open spec fn sign(a: int) -> int {
    if a > 0 {
        ONE_RAW as int
    } else if a < 0 {
        -ONE_RAW
    } else {
        0
    }
}

/// A number in steps of `1 / 65536`, from `-2^31` to `2^31` inclusive.
///
/// The view of a `Fixed` is its raw value: the number multiplied by `65536`.
#[derive(Clone, Copy, Debug, PartialEq, Eq, Structural)]
pub struct Fixed {
    raw: i64,
}

impl View for Fixed {
    type V = int;

    closed spec fn view(&self) -> int {
        self.raw as int
    }
}

impl Fixed {
    /// The raw value of every `Fixed` lies within [`LIMIT_RAW`] of zero.
    #[verifier::type_invariant]
    pub open spec fn wf(self) -> bool {
        in_range(self@)
    }

    /// Two numbers with the same raw value are the same number.
    pub proof fn lemma_view_injective(a: Fixed, b: Fixed)
        ensures
            a@ == b@ <==> a == b,
    {
    }

    /// The number with the given raw value, if there is one.
    pub fn from_raw(raw: i64) -> (r: Option<Fixed>)
        ensures
            r is Some <==> in_range(raw as int),
            r matches Some(f) ==> f@ == raw,
    {
        if -LIMIT_RAW <= raw && raw <= LIMIT_RAW {
            Some(Fixed { raw })
        } else {
            None
        }
    }

    /// The number `n + steps / 65536`.
    pub fn from_parts(n: i32, steps: u16) -> (r: Fixed)
        ensures
            r@ == whole(n as int) + steps,
    {
        Fixed { raw: (n as i64) * ONE_RAW + (steps as i64) }
    }

    /// The whole number `n`.
    pub fn from_int(n: i32) -> (r: Fixed)
        ensures
            r@ == whole(n as int),
    {
        Fixed { raw: (n as i64) * ONE_RAW }
    }

    /// The number zero.
    pub fn zero() -> (r: Fixed)
        ensures
            r@ == 0,
    {
        Fixed { raw: 0 }
    }

    /// The raw value.
    pub fn raw(self) -> (r: i64)
        ensures
            r == self@,
            in_range(r as int),
    {
        proof {
            use_type_invariant(&self);
        }
        self.raw
    }

    /// The number whose raw value is `v` clamped to the range.
    fn saturate(v: i128) -> (r: Fixed)
        ensures
            r@ == clamp(v as int),
    {
        if v > LIMIT_RAW as i128 {
            Fixed { raw: LIMIT_RAW }
        } else if v < -(LIMIT_RAW as i128) {
            Fixed { raw: -LIMIT_RAW }
        } else {
            Fixed { raw: v as i64 }
        }
    }

    /// The quotient of `n` by `d`, rounded towards zero and clamped to the range.
    fn saturated_quotient(n: i128, d: i128) -> (r: Fixed)
        requires
            d != 0,
            n > i128::MIN,
            d > i128::MIN,
        ensures
            r@ == clamp(quot(n as int, d as int)),
    {
        let n_mag: u128 = if n < 0 {
            (-n) as u128
        } else {
            n as u128
        };
        let d_mag: u128 = if d < 0 {
            (-d) as u128
        } else {
            d as u128
        };
        let q_mag: u128 = n_mag / d_mag;
        let negative: bool = (n < 0) != (d < 0);
        if q_mag > LIMIT_RAW as u128 {
            if negative {
                Fixed { raw: -LIMIT_RAW }
            } else {
                Fixed { raw: LIMIT_RAW }
            }
        } else {
            let q: i64 = q_mag as i64;
            if negative {
                Fixed { raw: -q }
            } else {
                Fixed { raw: q }
            }
        }
    }

    /// The sum, clamped to the range.
    pub fn plus(self, other: Fixed) -> (r: Fixed)
        ensures
            r@ == sum(self@, other@),
    {
        proof {
            use_type_invariant(&self);
            use_type_invariant(&other);
        }
        Fixed::saturate(self.raw as i128 + other.raw as i128)
    }

    /// The difference, clamped to the range.
    pub fn minus(self, other: Fixed) -> (r: Fixed)
        ensures
            r@ == difference(self@, other@),
    {
        proof {
            use_type_invariant(&self);
            use_type_invariant(&other);
        }
        Fixed::saturate(self.raw as i128 - other.raw as i128)
    }

    /// The number with the opposite sign. Always exact.
    pub fn negated(self) -> (r: Fixed)
        ensures
            r@ == -self@,
    {
        proof {
            use_type_invariant(&self);
        }
        Fixed { raw: -self.raw }
    }

    /// Half the number, rounded towards zero.
    pub fn halved(self) -> (r: Fixed)
        ensures
            r@ == half(self@),
    {
        proof {
            use_type_invariant(&self);
        }
        if self.raw < 0 {
            Fixed { raw: -((-self.raw) / 2) }
        } else {
            Fixed { raw: self.raw / 2 }
        }
    }

    /// The product, rounded towards zero and clamped to the range.
    pub fn times(self, other: Fixed) -> (r: Fixed)
        ensures
            r@ == product(self@, other@),
    {
        proof {
            use_type_invariant(&self);
            use_type_invariant(&other);
        }
        let a: i128 = self.raw as i128;
        let b: i128 = other.raw as i128;
        assert(-(LIMIT_RAW * LIMIT_RAW) <= a * b <= LIMIT_RAW * LIMIT_RAW) by (nonlinear_arith)
            requires
                -LIMIT_RAW <= a <= LIMIT_RAW,
                -LIMIT_RAW <= b <= LIMIT_RAW,
        ;
        Fixed::saturated_quotient(a * b, ONE_RAW as i128)
    }

    /// The quotient, rounded towards zero and clamped to the range.
    pub fn over(self, divisor: Fixed) -> (r: Fixed)
        requires
            divisor@ != 0,
        ensures
            r@ == ratio(self@, divisor@),
    {
        proof {
            use_type_invariant(&self);
            use_type_invariant(&divisor);
        }
        let a: i128 = self.raw as i128;
        assert(-(LIMIT_RAW * ONE_RAW) <= a * ONE_RAW <= LIMIT_RAW * ONE_RAW) by (nonlinear_arith)
            requires
                -LIMIT_RAW <= a <= LIMIT_RAW,
        ;
        Fixed::saturated_quotient(a * (ONE_RAW as i128), divisor.raw as i128)
    }

    /// The sign of the number: one, minus one or zero.
    pub fn signum(self) -> (r: Fixed)
        ensures
            r@ == sign(self@),
    {
        if self.raw > 0 {
            Fixed { raw: ONE_RAW }
        } else if self.raw < 0 {
            Fixed { raw: -ONE_RAW }
        } else {
            Fixed { raw: 0 }
        }
    }

    /// Whether the number is smaller than `other`.
    pub fn lt(self, other: Fixed) -> (r: bool)
        ensures
            r == (self@ < other@),
    {
        self.raw < other.raw
    }

    /// Whether the number is at most `other`.
    pub fn le(self, other: Fixed) -> (r: bool)
        ensures
            r == (self@ <= other@),
    {
        self.raw <= other.raw
    }
}

} // verus!
