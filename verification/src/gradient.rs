//! Colour gradients: a spectrum of colour stops, the colour it has at any
//! place, and the table of 256 colours that is kept for fast lookup.

use crate::fraction::{lemma_before_then_at_most, lemma_relative_is_unit, Position};
use crate::utils::{lemma_interpolated_at_the_ends, Interpolate, Rgba};
use itertools::Itertools;
use vstd::prelude::*;

verus! {

/// A colour stop: a place on the gradient and the colour there.
pub type TColor = (Position, Rgba);

/// Opaque black at the start of the gradient, the left stop where no stop
/// is at a place or behind it.
pub open spec fn default_left() -> TColor {
    (Position { num: 0, den: 1 }, [0u8, 0u8, 0u8, 255u8])
}

/// Opaque white at the end of the gradient, the right stop that goes with
/// `default_left`.
pub open spec fn default_right() -> TColor {
    (Position { num: 1, den: 1 }, [255u8, 255u8, 255u8, 255u8])
}

/// Whether `i` is the first stop at `t` or behind it.
pub open spec fn is_first_reaching(stops: Seq<TColor>, t: Position, i: int) -> bool {
    &&& 0 <= i < stops.len()
    &&& t.at_most(stops[i].0)
    &&& forall|j: int| 0 <= j < i ==> !t.at_most(#[trigger] stops[j].0)
}

/// Whether a stop at `t` or behind it exists.
pub open spec fn some_reaches(stops: Seq<TColor>, t: Position) -> bool {
    exists|i: int| 0 <= i < stops.len() && t.at_most(#[trigger] stops[i].0)
}

/// The index of the first stop at `t` or behind it.
pub open spec fn first_reaching(stops: Seq<TColor>, t: Position) -> int {
    choose|i: int| is_first_reaching(stops, t, i)
}

/// Where a new stop at `t` goes: behind every stop that is not behind `t`,
/// so also behind the stops at `t` itself.
pub open spec fn is_insertion_point(stops: Seq<TColor>, t: Position, i: int) -> bool {
    &&& 0 <= i <= stops.len()
    &&& i < stops.len() ==> t.before(stops[i].0)
    &&& forall|j: int| 0 <= j < i ==> !t.before(#[trigger] stops[j].0)
}

/// The index at which a new stop at `t` goes.
pub open spec fn insertion_point(stops: Seq<TColor>, t: Position) -> int {
    choose|i: int| is_insertion_point(stops, t, i)
}

/// The two stops that bound a colour at `t`: the first stop at `t` or behind
/// it, and the stop before that one. Where the first stop of all is at `t`
/// or behind it, no stop stands before it, and it is both bounds. Where no
/// stop is at `t` or behind it, as in a list without stops, the two are
/// opaque black at the start and opaque white at the end.
pub open spec fn bounding_colors(stops: Seq<TColor>, t: Position) -> (TColor, TColor) {
    if !some_reaches(stops, t) {
        (default_left(), default_right())
    } else if first_reaching(stops, t) >= 1 {
        (stops[first_reaching(stops, t) - 1], stops[first_reaching(stops, t)])
    } else {
        (stops[0], stops[0])
    }
}

/// The colour of the gradient at `t`, which is clamped to the gradient
/// first. Between two bounding stops that stand apart it is their blend,
/// each channel weighted by how far `t` is on the way from the left stop to
/// the right one. Where the two bounds stand at one place, it is the colour
/// of the stop there: at the first stop of all, the colour of that stop.
pub open spec fn color_at(stops: Seq<TColor>, t: Position) -> Rgba {
    let t = t.clamped();
    let (left, right) = bounding_colors(stops, t);
    if left.0.before(right.0) {
        left.1.interpolated(&right.1, t.relative(left.0, right.0))
    } else {
        right.1
    }
}

/// The invariant of a spectrum: at least two stops, each on the gradient, in
/// ascending order, the first at the start and the last at the end.
pub open spec fn is_spectrum(stops: Seq<TColor>) -> bool {
    &&& stops.len() >= 2
    &&& forall|i: int| 0 <= i < stops.len() ==> (#[trigger] stops[i]).0.is_unit()
    &&& stops[0].0.is_zero()
    &&& stops[stops.len() - 1].0.is_one()
    &&& forall|i: int, j: int|
        0 <= i < j < stops.len() ==> (#[trigger] stops[i]).0.at_most((#[trigger] stops[j]).0)
}

/// The place of the `i`th of the 256 samples of a lookup table.
pub open spec fn sample_position(i: int) -> Position {
    Position { num: i as u16, den: 255 }
}

/// The lookup table of a spectrum: its colour at each of 256 evenly spaced
/// places from the start to the end.
pub open spec fn lut_of(stops: Seq<TColor>) -> Seq<Rgba> {
    Seq::new(256, |i: int| color_at(stops, sample_position(i)))
}

/// The table entry that stands for the place `t`: 255 times `t`, with its
/// fractional part cut off.
pub open spec fn lut_index(t: Position) -> int {
    (t.num * 255) / (t.den as int)
}

/// There is one first stop at `t` or behind it, if any stop is.
pub proof fn lemma_first_reaching(stops: Seq<TColor>, t: Position, i: int)
    requires
        is_first_reaching(stops, t, i),
    ensures
        some_reaches(stops, t),
        first_reaching(stops, t) == i,
{
    let chosen = first_reaching(stops, t);
    assert(is_first_reaching(stops, t, chosen));
    if chosen < i {
        assert(!t.at_most(stops[chosen].0));
    }
    if i < chosen {
        assert(!t.at_most(stops[i].0));
    }
}

/// There is one place for a new stop.
pub proof fn lemma_insertion_point(stops: Seq<TColor>, t: Position, i: int)
    requires
        is_insertion_point(stops, t, i),
    ensures
        insertion_point(stops, t) == i,
{
    let chosen = insertion_point(stops, t);
    assert(is_insertion_point(stops, t, chosen));
    if chosen < i {
        assert(!t.before(stops[chosen].0));
    }
    if i < chosen {
        assert(!t.before(stops[i].0));
    }
}

/// The position and the value of the first stop at `t` or behind it.
///
/// This is `Itertools::find_position` on the stops in their order, with the
/// test `stop.0.reaches(t)`. It returns the first element that passes the
/// test together with its index, and `None` where no element passes.
#[verifier::external_body]
fn find_first_reaching(stops: &Vec<TColor>, t: Position) -> (found: Option<(usize, TColor)>)
    ensures
        match found {
            Some((position, stop)) => is_first_reaching(stops@, t, position as int) && stop
                == stops@[position as int],
            None => !some_reaches(stops@, t),
        },
{
    stops.iter().find_position(|stop| stop.0.reaches(t)).map(|(position, stop)| (position, *stop))
}

/// A gradient as a list of colour stops in ascending order.
pub struct Spectrum(Vec<TColor>);

impl View for Spectrum {
    type V = Seq<TColor>;

    closed spec fn view(&self) -> Seq<TColor> {
        self.0@
    }
}

impl Spectrum {
    /// The invariant of a spectrum.
    pub open spec fn wf(&self) -> bool {
        is_spectrum(self@)
    }

    /// The gradient from `color_a` at the start to `color_b` at the end.
    pub fn from_colors(color_a: Rgba, color_b: Rgba) -> (spectrum: Self)
        ensures
            spectrum.wf(),
            spectrum@ == seq![
                (Position { num: 0, den: 1 }, color_a),
                (Position { num: 1, den: 1 }, color_b),
            ],
    {
        let mut stops: Vec<TColor> = Vec::new();
        stops.push((Position::zero(), color_a));
        stops.push((Position::one(), color_b));
        let spectrum = Spectrum(stops);
        assert(spectrum@ =~= seq![
            (Position { num: 0, den: 1 }, color_a),
            (Position { num: 1, den: 1 }, color_b),
        ]);
        proof {
            lemma_unit_between_ends(Position { num: 0, den: 1 });
        }
        spectrum
    }

    /// The stops in their order.
    pub fn stops(&self) -> (stops: &Vec<TColor>)
        ensures
            stops@ == self@,
    {
        &self.0
    }

    /// Adds a stop of colour `color` at `t`, which is clamped to the
    /// gradient first. The stop goes behind the stops that are already at
    /// that place; all other stops keep their order.
    pub fn add_color_at_t(&mut self, t: Position, color: Rgba)
        requires
            old(self).wf(),
            t.wf(),
        ensures
            final(self).wf(),
            final(self)@ == old(self)@.insert(
                insertion_point(old(self)@, t.clamped()),
                (t.clamped(), color),
            ),
            1 <= insertion_point(old(self)@, t.clamped()) <= old(self)@.len(),
            final(self)@[0] == old(self)@[0],
            end_stop(final(self)@) == end_stop(old(self)@),
    {
        let t = t.clamp();
        let mut at: usize = 0;
        while at < self.0.len() && !t.is_before(self.0[at].0)
            invariant
                at <= self.0@.len(),
                forall|j: int| 0 <= j < at ==> !t.before(#[trigger] self.0@[j].0),
            decreases self.0@.len() - at,
        {
            at = at + 1;
        }
        proof {
            lemma_insertion_point(self@, t, at as int);
            lemma_insert_keeps_spectrum(self@, t, color, at as int);
            lemma_insert_keeps_ends(self@, t, color, at as int);
        }
        self.0.insert(at, (t, color));
    }

    /// The two stops that a colour at `t` is blended from.
    fn get_bounding_colors_for_t(&self, t: Position) -> (pair: (TColor, TColor))
        ensures
            pair == bounding_colors(self@, t),
    {
        if let Some((position, upper_color)) = find_first_reaching(&self.0, t) {
            proof {
                lemma_first_reaching(self@, t, position as int);
            }
            if position >= 1 {
                return (self.0[position - 1], upper_color);
            }
            return (upper_color, upper_color);
        }
        ((Position::zero(), [0, 0, 0, 255]), (Position::one(), [255, 255, 255, 255]))
    }

    /// The colour of the gradient at `t`, which is clamped to the gradient
    /// first.
    pub fn color_at_t(&self, t: Position) -> (color: Rgba)
        requires
            self.wf(),
            t.wf(),
        ensures
            color == color_at(self@, t),
            t.num == 0 ==> color == self@[0].1,
            t.num >= t.den ==> color == end_stop(self@).1,
    {
        proof {
            if t.num == 0 {
                lemma_color_at_start(self@, t);
            }
            if t.num >= t.den {
                lemma_color_at_end(self@, t);
            }
        }
        let t = t.clamp();
        let ((left_t, left_color), (right_t, right_color)) = self.get_bounding_colors_for_t(t);
        proof {
            lemma_bounding_colors_enclose(self@, t);
        }
        if left_t.is_before(right_t) {
            let mapped_t = t.relative_to(left_t, right_t);
            left_color.interpolate(&right_color, mapped_t)
        } else {
            right_color
        }
    }
}

/// The bounding stops of a place on the gradient enclose it: the left one is
/// not behind it and the right one is not before it. They are the first stop
/// at the place or behind it and the stop before that one, which stand
/// apart; or twice the first stop of all, where that is the first one at the
/// place or behind it.
pub proof fn lemma_bounding_colors_enclose(stops: Seq<TColor>, t: Position)
    requires
        is_spectrum(stops),
        t.is_unit(),
    ensures
        some_reaches(stops, t),
        is_first_reaching(stops, t, first_reaching(stops, t)),
        bounding_colors(stops, t).0.0.wf(),
        bounding_colors(stops, t).1.0.wf(),
        bounding_colors(stops, t).0.0.at_most(t),
        t.at_most(bounding_colors(stops, t).1.0),
        first_reaching(stops, t) >= 1 ==> bounding_colors(stops, t).0.0.before(
            bounding_colors(stops, t).1.0,
        ),
        first_reaching(stops, t) == 0 ==> bounding_colors(stops, t) == (stops[0], stops[0]),
{
    let last = stops.len() - 1;
    assert(t.at_most(stops[last].0)) by {
        assert(t.num * stops[last].0.den <= stops[last].0.num * t.den) by (nonlinear_arith)
            requires
                t.num <= t.den,
                stops[last].0.num == stops[last].0.den,
                t.num >= 0,
                stops[last].0.den >= 0,
        ;
    }
    lemma_least_reaching(stops, t, last);
    let i = first_reaching(stops, t);
    assert(is_first_reaching(stops, t, i));
    if i >= 1 {
        let left = stops[i - 1];
        let right = stops[i];
        assert(left.0.is_unit() && right.0.is_unit());
        assert(!t.at_most(left.0));
        assert(left.0.before(t));
        lemma_before_then_at_most(left.0, t, right.0);
    } else {
        assert(stops[0].0.is_unit());
        assert(stops[0].0.at_most(t)) by {
            assert(stops[0].0.num * t.den <= t.num * stops[0].0.den) by (nonlinear_arith)
                requires
                    stops[0].0.num == 0,
                    t.num >= 0,
                    stops[0].0.den >= 0,
            ;
        }
    }
}

/// A place on the gradient lies between its start and its end.
pub proof fn lemma_unit_between_ends(t: Position)
    requires
        t.is_unit(),
    ensures
        (Position { num: 0, den: 1 }).at_most(t),
        t.at_most(Position { num: 1, den: 1 }),
        (Position { num: 0, den: 1 }).before(Position { num: 1, den: 1 }),
        (Position { num: 0, den: 1 }).at_most(Position { num: 1, den: 1 }),
{
    assert(0 * t.den == 0 && t.num * 1 == t.num && 1 * t.den == t.den) by (nonlinear_arith);
    assert(0 * 1 == 0 && 1 * 1 == 1) by (nonlinear_arith);
}

/// Where some stop is at `t` or behind it, one of them is the first.
pub proof fn lemma_least_reaching(stops: Seq<TColor>, t: Position, i: int)
    requires
        0 <= i < stops.len(),
        t.at_most(stops[i].0),
    ensures
        exists|k: int| is_first_reaching(stops, t, k),
    decreases i,
{
    if exists|j: int| 0 <= j < i && t.at_most(#[trigger] stops[j].0) {
        let j = choose|j: int| 0 <= j < i && t.at_most(#[trigger] stops[j].0);
        lemma_least_reaching(stops, t, j);
    } else {
        assert(is_first_reaching(stops, t, i));
    }
}

/// A stop added at its insertion point leaves a spectrum a spectrum, and the
/// insertion point is behind the first stop.
pub proof fn lemma_insert_keeps_spectrum(stops: Seq<TColor>, t: Position, color: Rgba, at: int)
    requires
        is_spectrum(stops),
        t.is_unit(),
        is_insertion_point(stops, t, at),
    ensures
        1 <= at <= stops.len(),
        is_spectrum(stops.insert(at, (t, color))),
{
    let after = stops.insert(at, (t, color));
    let last = stops.len() - 1;
    assert(at >= 1) by {
        if at == 0 {
            assert(t.before(stops[0].0));
            assert(0 * t.den == 0) by (nonlinear_arith);
            assert(t.num * stops[0].0.den >= 0) by (nonlinear_arith)
                requires
                    t.num >= 0,
                    stops[0].0.den >= 0,
            ;
        }
    }
    assert(after[after.len() - 1].0.is_one()) by {
        if at == stops.len() {
            let end = stops[last].0;
            assert(!t.before(end));
            assert(t.num >= t.den) by (nonlinear_arith)
                requires
                    t.num * end.den >= end.num * t.den,
                    end.num == end.den,
                    end.den > 0,
            ;
        } else {
            assert(after[after.len() - 1] == stops[last]);
        }
    }
    assert forall|i: int| 0 <= i < after.len() implies (#[trigger] after[i]).0.is_unit() by {
        if i < at {
            assert(after[i] == stops[i]);
        } else if i > at {
            assert(after[i] == stops[i - 1]);
        }
    }
    assert forall|i: int, j: int| 0 <= i < j < after.len() implies (#[trigger] after[i]).0.at_most(
        (#[trigger] after[j]).0,
    ) by {
        if j < at {
            assert(after[i] == stops[i] && after[j] == stops[j]);
        } else if i > at {
            assert(after[i] == stops[i - 1] && after[j] == stops[j - 1]);
        } else if i < at && j > at {
            assert(after[i] == stops[i] && after[j] == stops[j - 1]);
        } else if j == at {
            assert(after[i] == stops[i]);
            assert(!t.before(stops[i].0));
        } else {
            assert(i == at && j > at);
            assert(after[j] == stops[j - 1]);
            assert(t.before(stops[at].0));
            if j - 1 > at {
                assert(stops[at].0.at_most(stops[j - 1].0));
                assert(stops[at].0.is_unit() && stops[j - 1].0.is_unit());
                lemma_before_then_at_most(t, stops[at].0, stops[j - 1].0);
            }
        }
    }
}

/// The first stop that stands at the end of the gradient.
pub open spec fn end_stop(stops: Seq<TColor>) -> TColor {
    stops[first_reaching(stops, Position { num: 1, den: 1 })]
}

/// A spectrum has a first stop at its end, and it is not the first stop of
/// all.
pub proof fn lemma_end_stop(stops: Seq<TColor>)
    requires
        is_spectrum(stops),
    ensures
        is_first_reaching(
            stops,
            Position { num: 1, den: 1 },
            first_reaching(stops, Position { num: 1, den: 1 }),
        ),
        first_reaching(stops, Position { num: 1, den: 1 }) >= 1,
        end_stop(stops).0.is_one(),
{
    let end = Position { num: 1, den: 1 };
    let last = stops.len() - 1;
    assert(end.at_most(stops[last].0)) by {
        assert(1 * stops[last].0.den == stops[last].0.num * 1) by (nonlinear_arith)
            requires
                stops[last].0.num == stops[last].0.den,
        ;
    }
    lemma_least_reaching(stops, end, last);
    let i = first_reaching(stops, end);
    assert(is_first_reaching(stops, end, i));
    if i == 0 {
        assert(1 * stops[0].0.den <= 0 * 1) by (nonlinear_arith)
            requires
                1 * stops[0].0.den <= stops[0].0.num * 1,
                stops[0].0.num == 0,
        ;
    }
    assert(stops[i].0.is_unit());
    assert(stops[i].0.num == stops[i].0.den) by (nonlinear_arith)
        requires
            1 * stops[i].0.den <= stops[i].0.num * 1,
            stops[i].0.num <= stops[i].0.den,
    ;
}

/// The colour at the end of the gradient, and at any place beyond it, is
/// the colour of the first stop that stands at the end.
pub proof fn lemma_color_at_end(stops: Seq<TColor>, t: Position)
    requires
        is_spectrum(stops),
        t.wf(),
        t.num >= t.den,
    ensures
        color_at(stops, t) == end_stop(stops).1,
{
    let end = Position { num: 1, den: 1 };
    let tc = t.clamped();
    lemma_end_stop(stops);
    let i = first_reaching(stops, end);
    assert forall|j: int| 0 <= j < stops.len() implies (tc.at_most(#[trigger] stops[j].0)
        <==> end.at_most(stops[j].0)) by {
        let s = stops[j].0;
        assert((tc.num * s.den <= s.num * tc.den) <==> (1 * s.den <= s.num * 1))
            by (nonlinear_arith)
            requires
                tc.num == tc.den,
                tc.den > 0,
        ;
    }
    assert(is_first_reaching(stops, tc, i));
    lemma_first_reaching(stops, tc, i);
    lemma_bounding_colors_enclose(stops, tc);
    let left = stops[i - 1];
    let right = stops[i];
    lemma_relative_is_unit(tc, left.0, right.0);
    let part = tc.relative(left.0, right.0);
    assert(part.num == part.den) by (nonlinear_arith)
        requires
            part.num == (tc.num * left.0.den - left.0.num * tc.den) * right.0.den,
            part.den == tc.den * (right.0.num * left.0.den - left.0.num * right.0.den),
            right.0.num == right.0.den,
            tc.num == tc.den,
    ;
    lemma_interpolated_at_the_ends(left.1, right.1, part);
}

/// Wherever the first stop of all is the first stop at a place or behind
/// it, the colour there is the colour of that stop.
pub proof fn lemma_color_at_first_stop(stops: Seq<TColor>, t: Position)
    requires
        is_first_reaching(stops, t.clamped(), 0),
    ensures
        color_at(stops, t) == stops[0].1,
{
    lemma_first_reaching(stops, t.clamped(), 0);
}

/// The colour at the start of the gradient is the colour of the first stop.
pub proof fn lemma_color_at_start(stops: Seq<TColor>, t: Position)
    requires
        is_spectrum(stops),
        t.wf(),
        t.num == 0,
    ensures
        color_at(stops, t) == stops[0].1,
{
    assert(t.at_most(stops[0].0)) by {
        assert(t.num * stops[0].0.den <= stops[0].0.num * t.den) by (nonlinear_arith)
            requires
                t.num == 0,
                stops[0].0.num >= 0,
                t.den > 0,
        ;
    }
    assert(is_first_reaching(stops, t, 0));
    lemma_color_at_first_stop(stops, t);
}

/// The colours at the two ends of a gradient are the colours of its two
/// boundary stops: the first stop of all, and the first stop at the end.
pub proof fn lemma_boundary_colors(stops: Seq<TColor>)
    requires
        is_spectrum(stops),
    ensures
        color_at(stops, Position { num: 0, den: 1 }) == stops[0].1,
        color_at(stops, Position { num: 1, den: 1 }) == end_stop(stops).1,
{
    lemma_color_at_start(stops, Position { num: 0, den: 1 });
    lemma_color_at_end(stops, Position { num: 1, den: 1 });
}

/// A new stop leaves the first stop in its place and the first stop at the
/// end of the gradient the same.
pub proof fn lemma_insert_keeps_ends(stops: Seq<TColor>, t: Position, color: Rgba, at: int)
    requires
        is_spectrum(stops),
        t.is_unit(),
        is_insertion_point(stops, t, at),
    ensures
        stops.insert(at, (t, color))[0] == stops[0],
        end_stop(stops.insert(at, (t, color))) == end_stop(stops),
{
    let end = Position { num: 1, den: 1 };
    let after = stops.insert(at, (t, color));
    lemma_insert_keeps_spectrum(stops, t, color, at);
    lemma_end_stop(stops);
    let k = first_reaching(stops, end);
    if t.num == t.den {
        assert(at == stops.len()) by {
            if at < stops.len() {
                let s = stops[at].0;
                assert(s.is_unit());
                assert(!(t.num * s.den < s.num * t.den)) by (nonlinear_arith)
                    requires
                        t.num == t.den,
                        s.num <= s.den,
                        t.den > 0,
                ;
            }
        }
        assert forall|j: int| 0 <= j < k implies !end.at_most(#[trigger] after[j].0) by {
            assert(after[j] == stops[j]);
        }
        assert(after[k] == stops[k]);
        assert(is_first_reaching(after, end, k));
        lemma_first_reaching(after, end, k);
    } else {
        assert(!end.at_most(t)) by {
            assert(!(1 * t.den <= t.num * 1)) by (nonlinear_arith)
                requires
                    t.num < t.den,
            ;
        }
        assert(at <= k) by {
            if k < at {
                let s = stops[k].0;
                assert(!t.before(s));
                assert(t.num * s.den < s.num * t.den) by (nonlinear_arith)
                    requires
                        1 * s.den <= s.num * 1,
                        t.num < t.den,
                        s.den > 0,
                ;
            }
        }
        assert forall|j: int| 0 <= j < k + 1 implies !end.at_most(#[trigger] after[j].0) by {
            if j < at {
                assert(after[j] == stops[j]);
            } else if j > at {
                assert(after[j] == stops[j - 1]);
            }
        }
        assert(after[k + 1] == stops[k]);
        assert(is_first_reaching(after, end, k + 1));
        lemma_first_reaching(after, end, k + 1);
    }
}

/// The first entry of a spectrum's table is the colour of the first stop,
/// and the last is the colour of the first stop at the end of the gradient.
pub proof fn lemma_lut_ends(stops: Seq<TColor>)
    requires
        is_spectrum(stops),
    ensures
        lut_of(stops)[0] == stops[0].1,
        lut_of(stops)[255] == end_stop(stops).1,
{
    lemma_color_at_start(stops, sample_position(0));
    lemma_color_at_end(stops, sample_position(255));
}

/// A table of 256 colours, sampled from a spectrum.
pub struct GradientLut([Rgba; 256]);

impl View for GradientLut {
    type V = Seq<Rgba>;

    closed spec fn view(&self) -> Seq<Rgba> {
        self.0@
    }
}

impl GradientLut {
    /// The table of a spectrum: its colour at each of 256 evenly spaced
    /// places from the start to the end.
    pub fn from(spectrum: &Spectrum) -> (lut: Self)
        requires
            spectrum.wf(),
        ensures
            lut@ == lut_of(spectrum@),
    {
        let mut gradient: [Rgba; 256] = [[0u8, 0, 0, 255]; 256];
        let mut i: usize = 0;
        while i < 256
            invariant
                i <= 256,
                spectrum.wf(),
                forall|k: int| 0 <= k < i ==> gradient@[k] == color_at(spectrum@, sample_position(k)),
            decreases 256 - i,
        {
            let rgba = spectrum.color_at_t(Position { num: i as u16, den: 255 });
            gradient[i] = rgba;
            i = i + 1;
        }
        let lut = GradientLut(gradient);
        assert(lut@ =~= lut_of(spectrum@));
        lut
    }

    /// The colour in entry `t` of the table.
    pub fn color_at_t(&self, t: u8) -> (color: Rgba)
        ensures
            color == self@[t as int],
    {
        self.0[t as usize]
    }
}

/// A gradient together with its lookup table.
pub struct ColorGradient {
    spectrum: Spectrum,
    lut: GradientLut,
}

impl ColorGradient {
    /// The stops of the gradient in their order.
    pub closed spec fn stops(&self) -> Seq<TColor> {
        self.spectrum@
    }

    /// The lookup table as it is stored.
    pub closed spec fn table(&self) -> Seq<Rgba> {
        self.lut@
    }

    /// The invariant of a gradient: its stops are a spectrum, and its table
    /// is the table of that spectrum.
    pub open spec fn wf(&self) -> bool {
        &&& is_spectrum(self.stops())
        &&& self.table() == lut_of(self.stops())
    }

    /// The gradient from `color_a` at the start to `color_b` at the end.
    pub fn from_colors(color_a: Rgba, color_b: Rgba) -> (gradient: Self)
        ensures
            gradient.wf(),
            gradient.stops() == seq![
                (Position { num: 0, den: 1 }, color_a),
                (Position { num: 1, den: 1 }, color_b),
            ],
    {
        let spectrum = Spectrum::from_colors(color_a, color_b);
        Self { lut: GradientLut::from(&spectrum), spectrum }
    }

    /// Adds a stop of colour `color` at `t`, which is clamped to the
    /// gradient first, and builds the table anew.
    pub fn add_color_at_t(&mut self, t: Position, color: Rgba)
        requires
            old(self).wf(),
            t.wf(),
        ensures
            final(self).wf(),
            final(self).stops() == old(self).stops().insert(
                insertion_point(old(self).stops(), t.clamped()),
                (t.clamped(), color),
            ),
            final(self).stops()[0] == old(self).stops()[0],
            end_stop(final(self).stops()) == end_stop(old(self).stops()),
    {
        self.spectrum.add_color_at_t(t, color);
        self.rebuild_lut();
    }

    /// The colour that the table holds for the place `t`, which is clamped
    /// to the gradient first.
    pub fn color_at_t(&self, t: Position) -> (color: Rgba)
        requires
            self.wf(),
            t.wf(),
        ensures
            0 <= lut_index(t.clamped()) <= 255,
            color == color_at(self.stops(), sample_position(lut_index(t.clamped()))),
            t.num == 0 ==> color == self.stops()[0].1,
            t.num >= t.den ==> color == end_stop(self.stops()).1,
    {
        let t = t.clamp();
        proof {
            lemma_lut_index_in_range(t);
            lemma_lut_ends(self.stops());
        }
        let index: u32 = (t.num as u32) * 255 / (t.den as u32);
        self.lut.color_at_t(index as u8)
    }

    /// The colour in entry `t` of the table.
    pub fn color_at_t_u8(&self, t: u8) -> (color: Rgba)
        requires
            self.wf(),
        ensures
            color == color_at(self.stops(), sample_position(t as int)),
    {
        self.lut.color_at_t(t)
    }

    fn rebuild_lut(&mut self)
        requires
            is_spectrum(old(self).stops()),
        ensures
            final(self).wf(),
            final(self).stops() == old(self).stops(),
    {
        self.lut = GradientLut::from(&self.spectrum);
    }
}

/// The table entry of a place on the gradient is one of the 256: the first
/// for the start of the gradient and the last for its end.
pub proof fn lemma_lut_index_in_range(t: Position)
    requires
        t.is_unit(),
    ensures
        0 <= lut_index(t) <= 255,
        0 <= t.num * 255 <= 0xffff * 255,
        t.num == 0 ==> lut_index(t) == 0,
        t.num == t.den ==> lut_index(t) == 255,
{
    let n = t.num as int;
    let d = t.den as int;
    assert(0 <= n * 255 <= d * 255);
    vstd::arithmetic::div_mod::lemma_div_is_ordered(0, n * 255, d);
    vstd::arithmetic::div_mod::lemma_div_is_ordered(n * 255, d * 255, d);
    vstd::arithmetic::div_mod::lemma_div_multiples_vanish(255, d);
    assert(0int / d == 0) by (nonlinear_arith)
        requires
            d > 0,
    ;
}

/// Two tables built from the same spectrum are the same table.
pub proof fn lemma_rebuild_is_deterministic(first: GradientLut, second: GradientLut, stops: Seq<
    TColor,
>)
    requires
        first@ == lut_of(stops),
        second@ == lut_of(stops),
    ensures
        first == second,
{
    assert(first.0@ =~= second.0@);
    vstd::array::axiom_array_ext_equal(first.0, second.0);
}

} // verus!
