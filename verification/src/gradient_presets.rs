//! Ready-made gradients. Each runs from opaque black at the start to opaque
//! white at the end, with its own stops in between.

use crate::fraction::Position;
use crate::gradient::{is_insertion_point, lemma_insertion_point, ColorGradient, TColor};
use crate::utils::Rgba;
use vstd::prelude::*;

verus! {

/// The place `hundredths / 100`.
pub open spec fn percent(hundredths: u16) -> Position {
    Position { num: hundredths, den: 100 }
}

/// The start of every ready-made gradient: opaque black.
pub open spec fn black_start() -> TColor {
    (Position { num: 0, den: 1 }, [0u8, 0u8, 0u8, 255u8])
}

/// The end of every ready-made gradient: opaque white.
pub open spec fn white_end() -> TColor {
    (Position { num: 1, den: 1 }, [255u8, 255u8, 255u8, 255u8])
}

/// The stops of the pink and blue gradient.
pub open spec fn pink_and_blue_stops() -> Seq<TColor> {
    seq![
        black_start(),
        (percent(40), [0u8, 0u8, 0u8, 255u8]),
        (percent(53), [0u8, 255u8, 255u8, 255u8]),
        (percent(60), [255u8, 0u8, 0u8, 255u8]),
        (percent(63), [200u8, 0u8, 255u8, 255u8]),
        (percent(80), [0u8, 20u8, 230u8, 255u8]),
        white_end(),
    ]
}

/// Adds a stop at `hundredths / 100` to `gradient`, where the caller knows
/// the index `at` that the stop goes to.
fn add_percent(gradient: &mut ColorGradient, hundredths: u16, color: Rgba, Ghost(at): Ghost<int>)
    requires
        old(gradient).wf(),
        hundredths <= 100,
        is_insertion_point(old(gradient).stops(), percent(hundredths), at),
    ensures
        final(gradient).wf(),
        final(gradient).stops() == old(gradient).stops().insert(at, (percent(hundredths), color)),
{
    proof {
        lemma_insertion_point(gradient.stops(), percent(hundredths), at);
    }
    gradient.add_color_at_t(Position { num: hundredths, den: 100 }, color);
}

/// A gradient through blue, pink, red and cyan.
pub fn new_pink_and_blue() -> (gradient: ColorGradient)
    ensures
        gradient.wf(),
        gradient.stops() == pink_and_blue_stops(),
{
    let mut gradient = ColorGradient::from_colors([0, 0, 0, 255], [255, 255, 255, 255]);
    add_percent(&mut gradient, 80, [0, 20, 230, 255], Ghost(1));
    add_percent(&mut gradient, 63, [200, 0, 255, 255], Ghost(1));
    add_percent(&mut gradient, 60, [255, 0, 0, 255], Ghost(1));
    add_percent(&mut gradient, 53, [0, 255, 255, 255], Ghost(1));
    add_percent(&mut gradient, 40, [0, 0, 0, 255], Ghost(1));
    assert(gradient.stops() =~= pink_and_blue_stops());
    gradient
}

/// The stops of the rainbow gradient.
pub open spec fn rainbow_stops() -> Seq<TColor> {
    seq![
        black_start(),
        (percent(45), [131u8, 58u8, 180u8, 255u8]),
        (percent(50), [243u8, 31u8, 42u8, 255u8]),
        (percent(55), [253u8, 252u8, 29u8, 255u8]),
        (percent(60), [29u8, 253u8, 49u8, 255u8]),
        (percent(85), [29u8, 220u8, 253u8, 255u8]),
        (percent(95), [30u8, 29u8, 253u8, 255u8]),
        white_end(),
    ]
}

/// A gradient through the colours of the rainbow.
pub fn new_rainbow() -> (gradient: ColorGradient)
    ensures
        gradient.wf(),
        gradient.stops() == rainbow_stops(),
{
    let mut gradient = ColorGradient::from_colors([0, 0, 0, 255], [255, 255, 255, 255]);
    add_percent(&mut gradient, 45, [131, 58, 180, 255], Ghost(1));
    add_percent(&mut gradient, 50, [243, 31, 42, 255], Ghost(2));
    add_percent(&mut gradient, 55, [253, 252, 29, 255], Ghost(3));
    add_percent(&mut gradient, 60, [29, 253, 49, 255], Ghost(4));
    add_percent(&mut gradient, 85, [29, 220, 253, 255], Ghost(5));
    add_percent(&mut gradient, 95, [30, 29, 253, 255], Ghost(6));
    assert(gradient.stops() =~= rainbow_stops());
    gradient
}

/// The stops of the protanopia friendly gradient.
pub open spec fn protanopia_friendly_stops() -> Seq<TColor> {
    seq![
        black_start(),
        (percent(20), [0u8, 0u8, 0u8, 255u8]),
        (percent(40), [0u8, 0u8, 255u8, 255u8]),
        (percent(60), [255u8, 255u8, 0u8, 255u8]),
        (percent(80), [255u8, 0u8, 255u8, 255u8]),
        (percent(90), [255u8, 255u8, 255u8, 255u8]),
        white_end(),
    ]
}

/// A gradient of colours that stay apart for viewers with protanopia: black,
/// blue, yellow, magenta and white.
pub fn new_protanopia_friendly() -> (gradient: ColorGradient)
    ensures
        gradient.wf(),
        gradient.stops() == protanopia_friendly_stops(),
{
    let mut gradient = ColorGradient::from_colors([0, 0, 0, 255], [255, 255, 255, 255]);
    add_percent(&mut gradient, 20, [0, 0, 0, 255], Ghost(1));
    add_percent(&mut gradient, 40, [0, 0, 255, 255], Ghost(2));
    add_percent(&mut gradient, 60, [255, 255, 0, 255], Ghost(3));
    add_percent(&mut gradient, 80, [255, 0, 255, 255], Ghost(4));
    add_percent(&mut gradient, 90, [255, 255, 255, 255], Ghost(5));
    assert(gradient.stops() =~= protanopia_friendly_stops());
    gradient
}

/// The stops of the magma gradient.
pub open spec fn magma_stops() -> Seq<TColor> {
    seq![
        black_start(),
        (percent(20), [0u8, 0u8, 4u8, 255u8]),
        (percent(40), [48u8, 0u8, 89u8, 255u8]),
        (percent(60), [189u8, 0u8, 38u8, 255u8]),
        (percent(80), [251u8, 106u8, 74u8, 255u8]),
        (percent(90), [252u8, 197u8, 192u8, 255u8]),
        (percent(95), [255u8, 255u8, 255u8, 255u8]),
        white_end(),
    ]
}

/// The magma gradient, from dark to light: blue-black, deep purple, deep
/// red, orange-red, light pink and white.
pub fn new_magma() -> (gradient: ColorGradient)
    ensures
        gradient.wf(),
        gradient.stops() == magma_stops(),
{
    let mut gradient = ColorGradient::from_colors([0, 0, 0, 255], [255, 255, 255, 255]);
    add_percent(&mut gradient, 20, [0, 0, 4, 255], Ghost(1));
    add_percent(&mut gradient, 40, [48, 0, 89, 255], Ghost(2));
    add_percent(&mut gradient, 60, [189, 0, 38, 255], Ghost(3));
    add_percent(&mut gradient, 80, [251, 106, 74, 255], Ghost(4));
    add_percent(&mut gradient, 90, [252, 197, 192, 255], Ghost(5));
    add_percent(&mut gradient, 95, [255, 255, 255, 255], Ghost(6));
    assert(gradient.stops() =~= magma_stops());
    gradient
}

/// The stops of the monochrome gradient.
pub open spec fn monochrome_stops() -> Seq<TColor> {
    seq![
        black_start(),
        (percent(20), [51u8, 51u8, 51u8, 255u8]),
        (percent(40), [102u8, 102u8, 102u8, 255u8]),
        (percent(60), [153u8, 153u8, 153u8, 255u8]),
        (percent(80), [204u8, 204u8, 204u8, 255u8]),
        (percent(90), [255u8, 255u8, 255u8, 255u8]),
        white_end(),
    ]
}

/// A gradient of greys from black to white.
pub fn new_monochrome() -> (gradient: ColorGradient)
    ensures
        gradient.wf(),
        gradient.stops() == monochrome_stops(),
{
    let mut gradient = ColorGradient::from_colors([0, 0, 0, 255], [255, 255, 255, 255]);
    add_percent(&mut gradient, 20, [51, 51, 51, 255], Ghost(1));
    add_percent(&mut gradient, 40, [102, 102, 102, 255], Ghost(2));
    add_percent(&mut gradient, 60, [153, 153, 153, 255], Ghost(3));
    add_percent(&mut gradient, 80, [204, 204, 204, 255], Ghost(4));
    add_percent(&mut gradient, 90, [255, 255, 255, 255], Ghost(5));
    assert(gradient.stops() =~= monochrome_stops());
    gradient
}

} // verus!
