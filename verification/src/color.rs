//! An RGB colour triple of 32-bit signed integers, with the elementwise
//! arithmetic that the vector operators apply to their colour channels.

use vstd::prelude::*;

verus! {

/// A colour triple: red, green and blue channels, each a 32-bit signed
/// integer. In the vector type this rides beside the floating-point
/// position; each arithmetic operator has its own rule for combining the
/// two operands' channels, and those rules are the methods below.
#[derive(Clone, Copy, Debug, PartialEq, Eq, Structural)]
pub struct Rgb {
    pub r: i32,
    pub g: i32,
    pub b: i32,
}

/// True when `a + b` fits in a 32-bit signed integer.
pub open spec fn sum_fits(a: int, b: int) -> bool {
    i32::MIN <= a + b <= i32::MAX
}

/// True when `a * b` fits in a 32-bit signed integer.
pub open spec fn product_fits(a: int, b: int) -> bool {
    i32::MIN <= a * b <= i32::MAX
}

/// Division truncating toward zero, as machine division of signed
/// integers does; the mathematical `/` on `int` rounds toward negative
/// infinity instead, so negative quotients are built from magnitudes.
pub open spec fn trunc_div(a: int, b: int) -> int
    recommends
        b != 0,
{
    if a >= 0 && b >= 0 {
        a / b
    } else if a < 0 && b < 0 {
        (-a) / (-b)
    } else if a < 0 {
        -((-a) / b)
    } else {
        -(a / (-b))
    }
}

/// True when dividing channel `a` by channel `b` is defined and fits:
/// `b` is nonzero and the quotient does not overflow (the one overflowing
/// case is the smallest integer divided by minus one).
pub open spec fn div_defined(a: int, b: int) -> bool {
    b != 0 && !(a == i32::MIN && b == -1)
}

/// The channel rule of the cross and dot products: the average of the two
/// operands' channels, with the machine's truncating division.
pub open spec fn channel_average(a: int, b: int) -> int
    recommends
        sum_fits(a, b),
{
    trunc_div(a + b, 2)
}

/// Elementwise sum of two colour triples.
pub open spec fn spec_add(a: Rgb, b: Rgb) -> Rgb {
    Rgb { r: (a.r + b.r) as i32, g: (a.g + b.g) as i32, b: (a.b + b.b) as i32 }
}

/// Elementwise difference of two colour triples.
pub open spec fn spec_sub(a: Rgb, b: Rgb) -> Rgb {
    Rgb { r: (a.r - b.r) as i32, g: (a.g - b.g) as i32, b: (a.b - b.b) as i32 }
}

/// Elementwise product of two colour triples.
pub open spec fn spec_mul(a: Rgb, b: Rgb) -> Rgb {
    Rgb { r: (a.r * b.r) as i32, g: (a.g * b.g) as i32, b: (a.b * b.b) as i32 }
}

/// Elementwise truncating quotient of two colour triples.
pub open spec fn spec_div(a: Rgb, b: Rgb) -> Rgb {
    Rgb {
        r: trunc_div(a.r as int, b.r as int) as i32,
        g: trunc_div(a.g as int, b.g as int) as i32,
        b: trunc_div(a.b as int, b.b as int) as i32,
    }
}

/// Elementwise channel average of two colour triples.
pub open spec fn spec_average(a: Rgb, b: Rgb) -> Rgb {
    Rgb {
        r: channel_average(a.r as int, b.r as int) as i32,
        g: channel_average(a.g as int, b.g as int) as i32,
        b: channel_average(a.b as int, b.b as int) as i32,
    }
}

/// All three channel sums of `a` and `b` fit.
pub open spec fn sums_fit(a: Rgb, b: Rgb) -> bool {
    sum_fits(a.r as int, b.r as int) && sum_fits(a.g as int, b.g as int) && sum_fits(
        a.b as int,
        b.b as int,
    )
}

/// True when `a - b` fits in a 32-bit signed integer.
pub open spec fn diff_fits(a: int, b: int) -> bool {
    i32::MIN <= a - b <= i32::MAX
}

/// All three channel differences of `a` and `b` fit.
pub open spec fn diffs_fit(a: Rgb, b: Rgb) -> bool {
    diff_fits(a.r as int, b.r as int) && diff_fits(a.g as int, b.g as int) && diff_fits(
        a.b as int,
        b.b as int,
    )
}

/// All three channel products of `a` and `b` fit.
pub open spec fn products_fit(a: Rgb, b: Rgb) -> bool {
    product_fits(a.r as int, b.r as int) && product_fits(a.g as int, b.g as int) && product_fits(
        a.b as int,
        b.b as int,
    )
}

/// All three channel quotients of `a` by `b` are defined and fit.
pub open spec fn divs_defined(a: Rgb, b: Rgb) -> bool {
    div_defined(a.r as int, b.r as int) && div_defined(a.g as int, b.g as int) && div_defined(
        a.b as int,
        b.b as int,
    )
}

impl Rgb {
    /// Build a triple from its three channels.
    pub fn new(r: i32, g: i32, b: i32) -> (c: Rgb)
        ensures
            c == (Rgb { r, g, b }),
    {
        Rgb { r, g, b }
    }

    /// The red channel.
    pub fn r(&self) -> (v: i32)
        ensures
            v == self.r,
    {
        self.r
    }

    /// The green channel.
    pub fn g(&self) -> (v: i32)
        ensures
            v == self.g,
    {
        self.g
    }

    /// The blue channel.
    pub fn b(&self) -> (v: i32)
        ensures
            v == self.b,
    {
        self.b
    }

    /// Elementwise sum: the colour rule of vector addition.
    pub fn add(&self, rhs: &Rgb) -> (c: Rgb)
        requires
            sums_fit(*self, *rhs),
        ensures
            c == spec_add(*self, *rhs),
    {
        Rgb { r: self.r + rhs.r, g: self.g + rhs.g, b: self.b + rhs.b }
    }

    /// Elementwise difference: the colour rule of vector subtraction.
    pub fn sub(&self, rhs: &Rgb) -> (c: Rgb)
        requires
            diffs_fit(*self, *rhs),
        ensures
            c == spec_sub(*self, *rhs),
    {
        Rgb { r: self.r - rhs.r, g: self.g - rhs.g, b: self.b - rhs.b }
    }

    /// Elementwise product: the colour rule of vector-by-vector
    /// multiplication.
    pub fn mul(&self, rhs: &Rgb) -> (c: Rgb)
        requires
            products_fit(*self, *rhs),
        ensures
            c == spec_mul(*self, *rhs),
    {
        Rgb { r: self.r * rhs.r, g: self.g * rhs.g, b: self.b * rhs.b }
    }

    /// Elementwise truncating quotient: the colour rule of
    /// vector-by-vector division.
    pub fn div(&self, rhs: &Rgb) -> (c: Rgb)
        requires
            divs_defined(*self, *rhs),
        ensures
            c == spec_div(*self, *rhs),
    {
        Rgb {
            r: div_channel(self.r, rhs.r),
            g: div_channel(self.g, rhs.g),
            b: div_channel(self.b, rhs.b),
        }
    }

    /// Elementwise channel average: the colour rule of the cross and dot
    /// products.
    pub fn average(&self, rhs: &Rgb) -> (c: Rgb)
        requires
            sums_fit(*self, *rhs),
        ensures
            c == spec_average(*self, *rhs),
    {
        Rgb {
            r: avg_channel(self.r, rhs.r),
            g: avg_channel(self.g, rhs.g),
            b: avg_channel(self.b, rhs.b),
        }
    }

    /// In-place sum, defined as assignment of the binary operator's
    /// result.
    pub fn add_assign(&mut self, rhs: &Rgb)
        requires
            sums_fit(*old(self), *rhs),
        ensures
            *final(self) == spec_add(*old(self), *rhs),
    {
        *self = self.add(rhs);
    }

    /// In-place difference, defined as assignment of the binary
    /// operator's result.
    pub fn sub_assign(&mut self, rhs: &Rgb)
        requires
            diffs_fit(*old(self), *rhs),
        ensures
            *final(self) == spec_sub(*old(self), *rhs),
    {
        *self = self.sub(rhs);
    }

    /// In-place product, defined as assignment of the binary operator's
    /// result.
    pub fn mul_assign(&mut self, rhs: &Rgb)
        requires
            products_fit(*old(self), *rhs),
        ensures
            *final(self) == spec_mul(*old(self), *rhs),
    {
        *self = self.mul(rhs);
    }

    /// In-place quotient, defined as assignment of the binary operator's
    /// result.
    pub fn div_assign(&mut self, rhs: &Rgb)
        requires
            divs_defined(*old(self), *rhs),
        ensures
            *final(self) == spec_div(*old(self), *rhs),
    {
        *self = self.div(rhs);
    }
}

/// One channel of the elementwise quotient, truncating toward zero as
/// machine division does. Signed division is carried out on magnitudes.
fn div_channel(a: i32, b: i32) -> (q: i32)
    requires
        div_defined(a as int, b as int),
    ensures
        q as int == trunc_div(a as int, b as int),
{
    let ua: u32 = if a >= 0 {
        a as u32
    } else {
        (-(a as i64)) as u32
    };
    let ub: u32 = if b >= 0 {
        b as u32
    } else {
        (-(b as i64)) as u32
    };
    proof {
        assert(a < 0 ==> ua as int == -(a as int));
        assert(b < 0 ==> ub as int == -(b as int));
    }
    let uq: u32 = ua / ub;
    proof {
        assert(uq <= ua) by (nonlinear_arith)
            requires
                ub >= 1,
                uq == ua as int / ub as int,
                ua >= 0,
        ;
        assert(a == i32::MIN ==> ub != 1 ==> uq < 0x8000_0000) by (nonlinear_arith)
            requires
                ub >= 1,
                uq == ua as int / ub as int,
                ua <= 0x8000_0000,
        ;
    }
    if (a >= 0) == (b >= 0) {
        uq as i32
    } else {
        (-(uq as i64)) as i32
    }
}

/// One channel of the elementwise average: `(a + b) / 2` with truncating
/// division, computed without overflowing the intermediate sum.
fn avg_channel(a: i32, b: i32) -> (m: i32)
    requires
        sum_fits(a as int, b as int),
    ensures
        m as int == channel_average(a as int, b as int),
{
    let s: i64 = a as i64 + b as i64;
    let si: i32 = s as i32;
    div_channel(si, 2)
}

/// Averaging is commutative in each channel, so the colour triple of a
/// cross or dot product does not depend on the order of its operands.
pub proof fn lemma_average_commutes(a: Rgb, b: Rgb)
    requires
        sums_fit(a, b),
    ensures
        spec_average(a, b) == spec_average(b, a),
{
}

} // verus!

