//! Helpers shared by the engine and the colour pipeline: the index of a cell
//! on the toroidal grid, linear maps between ranges, and the blending of
//! colours.

use crate::fraction::Fraction;
use std::ops::{Add, Div, Mul, Range, Sub};
use vstd::arithmetic::div_mod::{
    lemma_div_is_ordered, lemma_div_multiples_vanish, lemma_fundamental_div_mod,
    lemma_mod_multiples_vanish,
};
use vstd::prelude::*;
use vstd::std_specs::ops::{AddSpec, DivSpec, MulSpec, SubSpec};

verus! {

/// The remainder that machine division leaves: it has the sign of the dividend `a`.
pub open spec fn truncated_rem(a: int, b: int) -> int {
    if a >= 0 {
        a % b
    } else {
        -((-a) % b)
    }
}

/// The row-major cell index that the coordinate `(x, y)` addresses on a grid
/// of `width` by `height` cells.
///
/// Each coordinate is moved up by one period and then reduced with the
/// truncating remainder. From one period below the origin upwards this is the
/// usual wrap-around of a torus; further below, the reduced coordinate comes
/// out negative.
pub open spec fn wrapping_index(x: int, y: int, width: int, height: int) -> int {
    truncated_rem(y + height, height) * width + truncated_rem(x + width, width)
}

/// Whether `(x, y)` is a coordinate that is wrapped around the torus: it
/// lies no more than one period below the origin on either axis. A
/// coordinate further below is not wrapped: its reduced coordinate comes out
/// negative.
pub open spec fn is_wrapped(x: int, y: int, width: int, height: int) -> bool {
    x + width >= 0 && y + height >= 0
}

/// The cell that wrap-around on a torus gives `(x, y)`.
pub open spec fn torus_index(x: int, y: int, width: int, height: int) -> int {
    (y % height) * width + (x % width)
}

/// Whether `(x, y)` addresses a cell at all: the grid is not empty and the
/// index is a machine index. Every wrapped coordinate of a grid that fits in
/// memory addresses a cell. A coordinate that is not wrapped addresses one
/// only where its index is not negative all the same.
pub open spec fn addresses_cell(x: int, y: int, width: int, height: int) -> bool {
    &&& width > 0
    &&& height > 0
    &&& 0 <= wrapping_index(x, y, width, height) <= usize::MAX
}

proof fn lemma_product_fits(row: int, width: int)
    by (nonlinear_arith)
    requires
        0 <= row <= 0xffff_ffff_ffff_ffff,
        0 <= width <= 0xffff_ffff_ffff_ffff,
    ensures
        0 <= row * width <= 0xffff_ffff_ffff_ffff * 0xffff_ffff_ffff_ffff,
{
}

proof fn lemma_negative_row(row: int, col: int, width: int)
    by (nonlinear_arith)
    requires
        row <= -1,
        col < width,
        width > 0,
    ensures
        row * width + col < 0,
{
}

/// The cell index of `(x, y)`, or `None` where the coordinate addresses no
/// cell.
pub fn checked_wrapping_index(x: isize, y: isize, width: usize, height: usize) -> (index: Option<
    usize,
>)
    ensures
        index is Some <==> addresses_cell(x as int, y as int, width as int, height as int),
        index matches Some(i) ==> i == wrapping_index(
            x as int,
            y as int,
            width as int,
            height as int,
        ) && i < width * height,
        index matches Some(i) ==> (is_wrapped(x as int, y as int, width as int, height as int)
            ==> i == torus_index(x as int, y as int, width as int, height as int)),
        width > 0 && height > 0 && width * height <= usize::MAX && is_wrapped(
            x as int,
            y as int,
            width as int,
            height as int,
        ) ==> index is Some,
{
    if width == 0 || height == 0 {
        return None;
    }
    proof {
        lemma_wrapping_index_below_cells(x as int, y as int, width as int, height as int);
        if is_wrapped(x as int, y as int, width as int, height as int) {
            lemma_wrapping_index_on_torus(x as int, y as int, width as int, height as int);
        }
    }
    let w: i128 = width as i128;
    let h: i128 = height as i128;
    let col: i128 = (x as i128 + w) % w;
    let row: i128 = (y as i128 + h) % h;
    assert(col == truncated_rem(x + width, width as int));
    assert(row == truncated_rem(y + height, height as int));
    if row < 0 {
        proof {
            lemma_negative_row(row as int, col as int, width as int);
        }
        return None;
    }
    proof {
        lemma_product_fits(row as int, width as int);
    }
    let base: u128 = (row as u128) * (width as u128);
    if col >= 0 {
        let total: u128 = base + col as u128;
        if total <= usize::MAX as u128 {
            Some(total as usize)
        } else {
            None
        }
    } else {
        let back: u128 = (-col) as u128;
        if base >= back && base - back <= usize::MAX as u128 {
            Some((base - back) as usize)
        } else {
            None
        }
    }
}

/// The cell index of `(x, y)` on a grid of `width` by `height` cells. It is
/// an index of the grid. For a wrapped coordinate it is the cell that
/// wrap-around on a torus gives; a coordinate more than one period below
/// the origin is not wrapped, and is admitted only where its index is not
/// negative.
pub fn get_wrapping_index(x: isize, y: isize, width: usize, height: usize) -> (index: usize)
    requires
        addresses_cell(x as int, y as int, width as int, height as int),
    ensures
        index == wrapping_index(x as int, y as int, width as int, height as int),
        index < width * height,
        is_wrapped(x as int, y as int, width as int, height as int) ==> index == torus_index(
            x as int,
            y as int,
            width as int,
            height as int,
        ),
{
    match checked_wrapping_index(x, y, width, height) {
        Some(index) => index,
        None => 0,
    }
}

/// The reduced coordinate has the period of the axis: moving `a` by whole
/// periods of `period` does not change it, as long as both coordinates lie
/// on the same side of one period below the origin, or `a` is a multiple of
/// the period.
pub proof fn lemma_reduced_coordinate_periodic(a: int, k: int, period: int)
    requires
        period > 0,
        a % period == 0 || (a + period >= 0 <==> a + k * period + period >= 0),
    ensures
        truncated_rem(a + k * period + period, period) == truncated_rem(a + period, period),
{
    let shifted = a + k * period;
    assert(period * k == k * period && period * (-k) == -(k * period)) by (nonlinear_arith);
    lemma_mod_multiples_vanish(k, a + period, period);
    lemma_mod_multiples_vanish(-k, -(a + period), period);
    assert((shifted + period) % period == (a + period) % period);
    assert((-(shifted + period)) % period == (-(a + period)) % period);
    if a % period == 0 {
        let q = (a + period) / period;
        lemma_mod_multiples_vanish(1, a, period);
        lemma_fundamental_div_mod(a + period, period);
        assert(period * (-q) == -(period * q)) by (nonlinear_arith);
        lemma_mod_multiples_vanish(-q, 0, period);
        assert((-(a + period)) % period == 0);
    }
}

/// Toroidal periodicity in `x`: moving `x` by whole periods of `width` does
/// not change the cell, as long as both coordinates lie on the same side of
/// one period below the origin, or `x` is a multiple of the width. Among
/// wrapped coordinates it always holds.
pub proof fn lemma_wrapping_index_periodic(x: int, y: int, k: int, width: int, height: int)
    requires
        width > 0,
        x % width == 0 || (x + width >= 0 <==> x + k * width + width >= 0),
    ensures
        wrapping_index(x + k * width, y, width, height) == wrapping_index(x, y, width, height),
{
    lemma_reduced_coordinate_periodic(x, k, width);
}

/// Toroidal periodicity in `y`: moving `y` by whole periods of `height` does
/// not change the cell, as long as both coordinates lie on the same side of
/// one period below the origin, or `y` is a multiple of the height. Among
/// wrapped coordinates it always holds.
pub proof fn lemma_wrapping_index_periodic_in_y(x: int, y: int, k: int, width: int, height: int)
    requires
        height > 0,
        y % height == 0 || (y + height >= 0 <==> y + k * height + height >= 0),
    ensures
        wrapping_index(x, y + k * height, width, height) == wrapping_index(x, y, width, height),
{
    lemma_reduced_coordinate_periodic(y, k, height);
}

/// The index of every coordinate, wrapped or not, lies below the number of
/// cells.
pub proof fn lemma_wrapping_index_below_cells(x: int, y: int, width: int, height: int)
    requires
        width > 0,
        height > 0,
    ensures
        wrapping_index(x, y, width, height) < width * height,
{
    let row = truncated_rem(y + height, height);
    let col = truncated_rem(x + width, width);
    assert(row <= height - 1 && col <= width - 1);
    assert(row * width + col < width * height) by (nonlinear_arith)
        requires
            row <= height - 1,
            col <= width - 1,
            width > 0,
    ;
}

/// Every wrapped coordinate has the index that wrap-around on a torus
/// gives, which is an index of the grid: it addresses a cell wherever the
/// grid fits in memory.
pub proof fn lemma_wrapping_index_on_torus(x: int, y: int, width: int, height: int)
    requires
        width > 0,
        height > 0,
        is_wrapped(x, y, width, height),
    ensures
        wrapping_index(x, y, width, height) == torus_index(x, y, width, height),
        0 <= wrapping_index(x, y, width, height) < width * height,
        width * height <= usize::MAX ==> addresses_cell(x, y, width, height),
{
    lemma_mod_multiples_vanish(1, x, width);
    lemma_mod_multiples_vanish(1, y, height);
    let row = y % height;
    let col = x % width;
    assert(0 <= row * width + col < width * height) by (nonlinear_arith)
        requires
            0 <= row < height,
            0 <= col < width,
    ;
}

/// The value that `t` is carried to when the range `range_a` is laid
/// linearly over `range_b`: the slope is worked out first, in `T`'s own
/// division.
pub open spec fn linear_map<T>(t: T, range_a: Range<T>, range_b: Range<T>) -> T where
    T: Copy + Sub<Output = T> + Div<Output = T> + Add<Output = T> + Mul<Output = T>,
 {
    range_b.start.add_spec(
        range_b.end.sub_spec(range_b.start).div_spec(
            range_a.end.sub_spec(range_a.start),
        ).mul_spec(t.sub_spec(range_a.start)),
    )
}

/// Whether each step of `linear_map` is defined in `T`.
pub open spec fn linear_map_defined<T>(t: T, range_a: Range<T>, range_b: Range<T>) -> bool where
    T: Copy + Sub<Output = T> + Div<Output = T> + Add<Output = T> + Mul<Output = T>,
 {
    let rise = range_b.end.sub_spec(range_b.start);
    let run = range_a.end.sub_spec(range_a.start);
    let offset = t.sub_spec(range_a.start);
    &&& <T as SubSpec>::obeys_sub_spec()
    &&& <T as DivSpec>::obeys_div_spec()
    &&& <T as MulSpec>::obeys_mul_spec()
    &&& <T as AddSpec>::obeys_add_spec()
    &&& range_b.end.sub_req(range_b.start)
    &&& range_a.end.sub_req(range_a.start)
    &&& rise.div_req(run)
    &&& t.sub_req(range_a.start)
    &&& rise.div_spec(run).mul_req(offset)
    &&& range_b.start.add_req(rise.div_spec(run).mul_spec(offset))
}

/// Carries `t` from `range_a` to the matching place in `range_b`.
pub fn map_t_of_range_a_to_range_b<T>(t: T, range_a: Range<T>, range_b: Range<T>) -> (mapped: T) where
    T: Copy + Sub<Output = T> + Div<Output = T> + Add<Output = T> + Mul<Output = T>,

    requires
        linear_map_defined(t, range_a, range_b),
    ensures
        mapped == linear_map(t, range_a, range_b),
{
    let slope = (range_b.end - range_b.start) / (range_a.end - range_a.start);
    range_b.start + slope * (t - range_a.start)
}

/// A colour: red, green, blue and alpha.
pub type Rgba = [u8; 4];

/// The sum of two channel values weighted by `t`: `a` times what is left of
/// the whole and `b` times `t`'s part, both counted in `t`'s denominator.
pub open spec fn weighted_sum(a: u8, b: u8, t: Fraction) -> int {
    a * (t.den - t.num) + b * t.num
}

/// The channel value at the weight `t` on the way from `a` to `b`: the
/// weighted mean `a * (1 - t) + b * t`, with its fractional part cut off.
pub open spec fn mixed_channel(a: u8, b: u8, t: Fraction) -> int {
    weighted_sum(a, b, t) / (t.den as int)
}

/// Values that can be blended with a weight.
pub trait Interpolate: Sized {
    /// The blend of `self` and `other` in which `other` has the weight `t`.
    spec fn interpolated(&self, other: &Self, t: Fraction) -> Self;

    /// Blends `self` and `other`, giving `other` the weight `t`.
    fn interpolate(&self, other: &Self, t: Fraction) -> (blend: Self)
        requires
            t.is_unit(),
        ensures
            blend == self.interpolated(other, t),
    ;
}

/// The weighted sum of two channel values lies between the denominator
/// times the lesser and the denominator times the greater, and at the ends
/// of the weight it is the denominator times the one value.
pub proof fn lemma_weighted_sum(a: u8, b: u8, t: Fraction)
    requires
        t.is_unit(),
    ensures
        a <= b ==> t.den * a <= weighted_sum(a, b, t) <= t.den * b,
        b <= a ==> t.den * b <= weighted_sum(a, b, t) <= t.den * a,
        t.num == 0 ==> weighted_sum(a, b, t) == t.den * a,
        t.num == t.den ==> weighted_sum(a, b, t) == t.den * b,
        0 <= weighted_sum(a, b, t) <= 255 * 0xffff_ffff_ffff_ffff,
{
    let d = t.den as int;
    let n = t.num as int;
    let low = if a <= b {
        a as int
    } else {
        b as int
    };
    let high = if a <= b {
        b as int
    } else {
        a as int
    };
    let sum = a * (d - n) + b * n;
    assert(d * low <= sum <= d * high && 0 <= sum <= 255 * 0xffff_ffff_ffff_ffff)
        by (nonlinear_arith)
        requires
            0 <= n <= d <= 0xffff_ffff_ffff_ffff,
            sum == a * (d - n) + b * n,
            0 <= low <= a <= high <= 255,
            low <= b <= high,
    ;
    assert(n == 0 ==> sum == d * a) by (nonlinear_arith)
        requires
            sum == a * (d - n) + b * n,
    ;
    assert(n == d ==> sum == d * b) by (nonlinear_arith)
        requires
            sum == a * (d - n) + b * n,
    ;
}

/// The weighted mean of two channel values lies between them, and is one of
/// them at the ends.
pub proof fn lemma_mixed_channel(a: u8, b: u8, t: Fraction)
    requires
        t.is_unit(),
    ensures
        a <= b ==> a <= mixed_channel(a, b, t) <= b,
        b <= a ==> b <= mixed_channel(a, b, t) <= a,
        t.num == 0 ==> mixed_channel(a, b, t) == a,
        t.num == t.den ==> mixed_channel(a, b, t) == b,
        a == b ==> mixed_channel(a, b, t) == a,
{
    let d = t.den as int;
    let sum = weighted_sum(a, b, t);
    lemma_weighted_sum(a, b, t);
    lemma_div_multiples_vanish(a as int, d);
    lemma_div_multiples_vanish(b as int, d);
    if a <= b {
        lemma_div_is_ordered(d * a, sum, d);
        lemma_div_is_ordered(sum, d * b, d);
    } else {
        lemma_div_is_ordered(d * b, sum, d);
        lemma_div_is_ordered(sum, d * a, d);
    }
}

/// A channel value is blended as the weighted mean with its fractional part
/// cut off.
impl Interpolate for u8 {
    open spec fn interpolated(&self, other: &Self, t: Fraction) -> Self {
        mixed_channel(*self, *other, t) as u8
    }

    fn interpolate(&self, other: &Self, t: Fraction) -> (blend: u8) {
        proof {
            lemma_mixed_channel(*self, *other, t);
            lemma_weighted_sum(*self, *other, t);
        }
        if *self == *other {
            *self
        } else {
            let rest: u128 = (t.den - t.num) as u128;
            let sum: u128 = (*self as u128) * rest + (*other as u128) * (t.num as u128);
            (sum / (t.den as u128)) as u8
        }
    }
}

/// A colour is blended channel by channel. Alpha is blended like the three
/// colour channels; it is not forced to opaque.
impl Interpolate for Rgba {
    open spec fn interpolated(&self, other: &Self, t: Fraction) -> Self {
        [
            self[0].interpolated(&other[0], t),
            self[1].interpolated(&other[1], t),
            self[2].interpolated(&other[2], t),
            self[3].interpolated(&other[3], t),
        ]
    }

    fn interpolate(&self, other: &Self, t: Fraction) -> (blend: Rgba) {
        [
            self[0].interpolate(&other[0], t),
            self[1].interpolate(&other[1], t),
            self[2].interpolate(&other[2], t),
            self[3].interpolate(&other[3], t),
        ]
    }
}

/// A blend in which the second colour has no weight is the first colour, and
/// one in which it has all the weight is the second.
pub proof fn lemma_interpolated_at_the_ends(a: Rgba, b: Rgba, t: Fraction)
    requires
        t.is_unit(),
    ensures
        t.num == 0 ==> a.interpolated(&b, t) == a,
        t.num == t.den ==> a.interpolated(&b, t) == b,
        a == b ==> a.interpolated(&b, t) == a,
{
    lemma_mixed_channel(a[0], b[0], t);
    lemma_mixed_channel(a[1], b[1], t);
    lemma_mixed_channel(a[2], b[2], t);
    lemma_mixed_channel(a[3], b[3], t);
    let blend = a.interpolated(&b, t);
    if t.num == 0 || a == b {
        assert(blend@ =~= a@);
    }
    if t.num == t.den {
        assert(blend@ =~= b@);
    }
}

} // verus!
