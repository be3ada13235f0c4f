//! Exact fractions: the places of colour stops along a gradient and the
//! weights used to blend two colours.
//!
//! A place or a weight is a quotient of two integers and is never rounded;
//! two of them are compared by cross multiplication.

use vstd::prelude::*;

verus! {

/// A place along a gradient: the fraction `num / den`. Zero is the start of
/// the gradient and one is its end.
#[derive(Clone, Copy, Debug)]
pub struct Position {
    pub num: u16,
    pub den: u16,
}

/// A weight between nothing and all: the fraction `num / den`.
#[derive(Clone, Copy, Debug)]
pub struct Fraction {
    pub num: u64,
    pub den: u64,
}

/// The product of two 16-bit numbers fits in 32 bits.
proof fn lemma_product_16(a: u16, b: u16)
    by (nonlinear_arith)
    ensures
        0 <= a * b <= 0xffff * 0xffff,
{
}

impl Fraction {
    /// Whether this is a fraction at all, and at most one.
    pub open spec fn is_unit(self) -> bool {
        0 < self.den && self.num <= self.den
    }

    /// The weight `num / den`, or `None` where `den` is zero or `num` is
    /// greater than `den`.
    pub fn new(num: u64, den: u64) -> (fraction: Option<Fraction>)
        ensures
            fraction == if 0 < den && num <= den {
                Some(Fraction { num, den })
            } else {
                None
            },
    {
        if 0 < den && num <= den {
            Some(Fraction { num, den })
        } else {
            None
        }
    }

    /// The part `elapsed / duration` of a span of time that has gone by, and
    /// all of it once `elapsed` has reached `duration`. A span without
    /// length has gone by at once.
    pub open spec fn elapsed_part(elapsed: u64, duration: u64) -> Fraction {
        if duration == 0 {
            Fraction { num: 1, den: 1 }
        } else if elapsed >= duration {
            Fraction { num: duration, den: duration }
        } else {
            Fraction { num: elapsed, den: duration }
        }
    }

    /// The part of `duration` that has gone by after `elapsed`.
    pub fn of_elapsed(elapsed: u64, duration: u64) -> (fraction: Fraction)
        ensures
            fraction == Self::elapsed_part(elapsed, duration),
            fraction.is_unit(),
    {
        if duration == 0 {
            Fraction { num: 1, den: 1 }
        } else if elapsed >= duration {
            Fraction { num: duration, den: duration }
        } else {
            Fraction { num: elapsed, den: duration }
        }
    }

    /// Whether the weight is all: the fraction is one.
    pub fn is_complete(&self) -> (complete: bool)
        ensures
            complete == (self.num >= self.den),
    {
        self.num >= self.den
    }
}

impl Position {
    /// Whether this is a fraction at all: the denominator is not zero.
    pub open spec fn wf(self) -> bool {
        self.den > 0
    }

    /// Whether this place lies on the gradient: it is at most one.
    pub open spec fn is_unit(self) -> bool {
        self.den > 0 && self.num <= self.den
    }

    /// Whether this place is the start of the gradient.
    pub open spec fn is_zero(self) -> bool {
        self.num == 0
    }

    /// Whether this place is the end of the gradient.
    pub open spec fn is_one(self) -> bool {
        self.num == self.den
    }

    /// Whether this place is not behind `other`.
    pub open spec fn at_most(self, other: Position) -> bool {
        self.num * other.den <= other.num * self.den
    }

    /// Whether this place is before `other`.
    pub open spec fn before(self, other: Position) -> bool {
        self.num * other.den < other.num * self.den
    }

    /// This place, or the end of the gradient where it lies beyond the end.
    pub open spec fn clamped(self) -> Position {
        if self.num > self.den {
            Position { num: self.den, den: self.den }
        } else {
            self
        }
    }

    /// How far this place is on the way from `left` to `right`.
    pub open spec fn relative(self, left: Position, right: Position) -> Fraction {
        Fraction {
            num: ((self.num * left.den - left.num * self.den) * right.den) as u64,
            den: (self.den * (right.num * left.den - left.num * right.den)) as u64,
        }
    }

    /// The place `num / den`, or `None` where `den` is zero.
    pub fn new(num: u16, den: u16) -> (position: Option<Position>)
        ensures
            position == if den > 0 {
                Some(Position { num, den })
            } else {
                None
            },
    {
        if den > 0 {
            Some(Position { num, den })
        } else {
            None
        }
    }

    /// The place `num / den` brought onto the gradient: a place below the
    /// start is the start, and a place beyond the end is the end.
    pub open spec fn of_signed(num: int, den: u16) -> Position {
        if num < 0 {
            Position { num: 0, den }
        } else if num > den {
            Position { num: den, den }
        } else {
            Position { num: num as u16, den }
        }
    }

    /// The place `num / den` clamped to the gradient, or `None` where `den`
    /// is zero.
    pub fn from_signed(num: i64, den: u16) -> (position: Option<Position>)
        ensures
            position == if den > 0 {
                Some(Self::of_signed(num as int, den))
            } else {
                None
            },
            position matches Some(p) ==> p.is_unit(),
    {
        if den == 0 {
            None
        } else if num < 0 {
            Some(Position { num: 0, den })
        } else if num > den as i64 {
            Some(Position { num: den, den })
        } else {
            Some(Position { num: num as u16, den })
        }
    }

    /// The start of the gradient.
    pub fn zero() -> (position: Position)
        ensures
            position == (Position { num: 0, den: 1 }),
    {
        Position { num: 0, den: 1 }
    }

    /// The end of the gradient.
    pub fn one() -> (position: Position)
        ensures
            position == (Position { num: 1, den: 1 }),
    {
        Position { num: 1, den: 1 }
    }

    /// Clamps the place to the gradient.
    pub fn clamp(self) -> (position: Position)
        requires
            self.wf(),
        ensures
            position == self.clamped(),
            position.is_unit(),
    {
        if self.num > self.den {
            Position { num: self.den, den: self.den }
        } else {
            self
        }
    }

    /// Whether this place is at `t` or behind it.
    pub fn reaches(&self, t: Position) -> (reached: bool)
        ensures
            reached == t.at_most(*self),
    {
        proof {
            lemma_product_16(t.num, self.den);
            lemma_product_16(self.num, t.den);
        }
        (t.num as u32) * (self.den as u32) <= (self.num as u32) * (t.den as u32)
    }

    /// Whether this place is before `other`.
    pub fn is_before(&self, other: Position) -> (earlier: bool)
        ensures
            earlier == self.before(other),
    {
        proof {
            lemma_product_16(self.num, other.den);
            lemma_product_16(other.num, self.den);
        }
        (self.num as u32) * (other.den as u32) < (other.num as u32) * (self.den as u32)
    }

    /// How far this place is on the way from `left` to `right`.
    pub fn relative_to(self, left: Position, right: Position) -> (part: Fraction)
        requires
            self.wf(),
            left.wf(),
            right.wf(),
            left.at_most(self),
            self.at_most(right),
            left.before(right),
        ensures
            part == self.relative(left, right),
            part.is_unit(),
    {
        proof {
            lemma_relative_is_unit(self, left, right);
            lemma_product_16(self.num, left.den);
            lemma_product_16(left.num, self.den);
            lemma_product_16(right.num, left.den);
            lemma_product_16(left.num, right.den);
        }
        let gone: u64 = (self.num as u64) * (left.den as u64) - (left.num as u64) * (
        self.den as u64);
        let span: u64 = (right.num as u64) * (left.den as u64) - (left.num as u64) * (
        right.den as u64);
        assert(gone * right.den <= 0xffff_ffff * 0xffff && self.den * span <= 0xffff * 0xffff_ffff)
            by (nonlinear_arith)
            requires
                0 <= gone <= 0xffff_ffff,
                0 <= span <= 0xffff_ffff,
                0 <= right.den <= 0xffff,
                0 <= self.den <= 0xffff,
        ;
        Fraction { num: gone * (right.den as u64), den: (self.den as u64) * span }
    }
}

/// The way from `left` to a place between `left` and `right` is a part of the
/// way from `left` to `right`; the products that state it fit in 64 bits.
pub proof fn lemma_relative_is_unit(t: Position, left: Position, right: Position)
    requires
        t.wf(),
        left.wf(),
        right.wf(),
        left.at_most(t),
        t.at_most(right),
        left.before(right),
    ensures
        0 <= t.num * left.den - left.num * t.den <= 0xffff_ffff,
        0 < right.num * left.den - left.num * right.den <= 0xffff_ffff,
        t.relative(left, right).num == (t.num * left.den - left.num * t.den) * right.den,
        t.relative(left, right).den == t.den * (right.num * left.den - left.num * right.den),
        t.relative(left, right).is_unit(),
{
    let tn = t.num as int;
    let td = t.den as int;
    let ln = left.num as int;
    let ld = left.den as int;
    let rn = right.num as int;
    let rd = right.den as int;
    assert(tn * ld <= 0xffff * 0xffff && rn * ld <= 0xffff * 0xffff && ln * td >= 0 && ln * rd
        >= 0) by (nonlinear_arith)
        requires
            0 <= tn <= 0xffff,
            0 <= ld <= 0xffff,
            0 <= rn <= 0xffff,
            0 <= ln,
            0 <= td,
            0 <= rd,
    ;
    let gone = tn * ld - ln * td;
    let span = rn * ld - ln * rd;
    assert(0 <= gone * rd <= 0xffff_ffff * 0xffff && 0 < td * span <= 0xffff * 0xffff_ffff)
        by (nonlinear_arith)
        requires
            0 <= gone <= 0xffff_ffff,
            0 < span <= 0xffff_ffff,
            0 < rd <= 0xffff,
            0 < td <= 0xffff,
    ;
    assert(gone * rd <= td * span) by (nonlinear_arith)
        requires
            gone == tn * ld - ln * td,
            span == rn * ld - ln * rd,
            tn * rd <= rn * td,
            ld > 0,
    ;
}

/// A place before a second, which is not behind a third, is before the
/// third.
pub proof fn lemma_before_then_at_most(a: Position, b: Position, c: Position)
    requires
        a.wf(),
        b.wf(),
        c.wf(),
        a.before(b),
        b.at_most(c),
    ensures
        a.before(c),
{
    let an = a.num as int;
    let ad = a.den as int;
    let bn = b.num as int;
    let bd = b.den as int;
    let cn = c.num as int;
    let cd = c.den as int;
    assert(an * cd < cn * ad) by (nonlinear_arith)
        requires
            an * bd < bn * ad,
            bn * cd <= cn * bd,
            ad > 0,
            bd > 0,
            cd > 0,
            an >= 0,
            bn >= 0,
            cn >= 0,
    ;
}

} // verus!
