//! The nutrient patterns that modulate the feed rate over the grid. The
//! engine knows a pattern by its number; the shape itself is drawn on the
//! graphics device.

use vstd::prelude::*;

verus! {

/// The number of nutrient patterns.
pub const PATTERN_COUNT: u32 = 9;

/// A nutrient pattern.
#[derive(Debug, Clone, Copy, PartialEq, Eq, Structural)]
pub enum NutrientPattern {
    Uniform,
    Checkerboard,
    DiagonalGradient,
    RadialGradient,
    VerticalStripes,
    HorizontalStripes,
    Noise,
    WaveFunction,
    CosineGrid,
}

impl NutrientPattern {
    /// The number of the pattern, counted from zero in the order of the
    /// variants.
    pub open spec fn number(self) -> u32 {
        match self {
            NutrientPattern::Uniform => 0,
            NutrientPattern::Checkerboard => 1,
            NutrientPattern::DiagonalGradient => 2,
            NutrientPattern::RadialGradient => 3,
            NutrientPattern::VerticalStripes => 4,
            NutrientPattern::HorizontalStripes => 5,
            NutrientPattern::Noise => 6,
            NutrientPattern::WaveFunction => 7,
            NutrientPattern::CosineGrid => 8,
        }
    }

    /// The pattern with the number `number`, for a number below nine.
    pub open spec fn numbered(number: u32) -> NutrientPattern {
        if number == 0 {
            NutrientPattern::Uniform
        } else if number == 1 {
            NutrientPattern::Checkerboard
        } else if number == 2 {
            NutrientPattern::DiagonalGradient
        } else if number == 3 {
            NutrientPattern::RadialGradient
        } else if number == 4 {
            NutrientPattern::VerticalStripes
        } else if number == 5 {
            NutrientPattern::HorizontalStripes
        } else if number == 6 {
            NutrientPattern::Noise
        } else if number == 7 {
            NutrientPattern::WaveFunction
        } else {
            NutrientPattern::CosineGrid
        }
    }

    /// The name of the pattern as it is shown.
    pub open spec fn name_text(self) -> Seq<char> {
        match self {
            NutrientPattern::Uniform => "Uniform"@,
            NutrientPattern::Checkerboard => "Checkerboard"@,
            NutrientPattern::DiagonalGradient => "Diagonal Gradient"@,
            NutrientPattern::RadialGradient => "Radial Gradient"@,
            NutrientPattern::VerticalStripes => "Vertical Stripes"@,
            NutrientPattern::HorizontalStripes => "Horizontal Stripes"@,
            NutrientPattern::Noise => "Noise"@,
            NutrientPattern::WaveFunction => "Wave Function"@,
            NutrientPattern::CosineGrid => "Cosine Grid"@,
        }
    }

    /// All patterns in the order of their numbers.
    pub open spec fn all_patterns() -> Seq<NutrientPattern> {
        seq![
            NutrientPattern::Uniform,
            NutrientPattern::Checkerboard,
            NutrientPattern::DiagonalGradient,
            NutrientPattern::RadialGradient,
            NutrientPattern::VerticalStripes,
            NutrientPattern::HorizontalStripes,
            NutrientPattern::Noise,
            NutrientPattern::WaveFunction,
            NutrientPattern::CosineGrid,
        ]
    }

    /// The pattern that follows this one when the patterns are cycled
    /// through, forwards or, with `reverse`, backwards. The last pattern is
    /// followed by the first.
    pub open spec fn cycled(self, reverse: bool) -> NutrientPattern {
        if reverse {
            if self.number() == 0 {
                Self::numbered(8)
            } else {
                Self::numbered((self.number() - 1) as u32)
            }
        } else {
            Self::numbered(((self.number() + 1) % 9) as u32)
        }
    }

    /// The number of the pattern.
    pub fn as_u32(self) -> (number: u32)
        ensures
            number == self.number(),
            number < PATTERN_COUNT,
    {
        match self {
            NutrientPattern::Uniform => 0,
            NutrientPattern::Checkerboard => 1,
            NutrientPattern::DiagonalGradient => 2,
            NutrientPattern::RadialGradient => 3,
            NutrientPattern::VerticalStripes => 4,
            NutrientPattern::HorizontalStripes => 5,
            NutrientPattern::Noise => 6,
            NutrientPattern::WaveFunction => 7,
            NutrientPattern::CosineGrid => 8,
        }
    }

    /// The pattern with the number `number`, or `None` where there is no
    /// such pattern.
    pub fn from_u32(number: u32) -> (pattern: Option<NutrientPattern>)
        ensures
            pattern == if number < PATTERN_COUNT {
                Some(Self::numbered(number))
            } else {
                None
            },
    {
        match number {
            0 => Some(NutrientPattern::Uniform),
            1 => Some(NutrientPattern::Checkerboard),
            2 => Some(NutrientPattern::DiagonalGradient),
            3 => Some(NutrientPattern::RadialGradient),
            4 => Some(NutrientPattern::VerticalStripes),
            5 => Some(NutrientPattern::HorizontalStripes),
            6 => Some(NutrientPattern::Noise),
            7 => Some(NutrientPattern::WaveFunction),
            8 => Some(NutrientPattern::CosineGrid),
            _ => None,
        }
    }

    /// The name of the pattern as it is shown.
    pub fn name(&self) -> (name: &'static str)
        ensures
            name@ == self.name_text(),
    {
        match self {
            NutrientPattern::Uniform => "Uniform",
            NutrientPattern::Checkerboard => "Checkerboard",
            NutrientPattern::DiagonalGradient => "Diagonal Gradient",
            NutrientPattern::RadialGradient => "Radial Gradient",
            NutrientPattern::VerticalStripes => "Vertical Stripes",
            NutrientPattern::HorizontalStripes => "Horizontal Stripes",
            NutrientPattern::Noise => "Noise",
            NutrientPattern::WaveFunction => "Wave Function",
            NutrientPattern::CosineGrid => "Cosine Grid",
        }
    }

    /// All patterns in the order of their numbers.
    pub fn all() -> (patterns: Vec<NutrientPattern>)
        ensures
            patterns@ == Self::all_patterns(),
    {
        let mut patterns: Vec<NutrientPattern> = Vec::new();
        patterns.push(NutrientPattern::Uniform);
        patterns.push(NutrientPattern::Checkerboard);
        patterns.push(NutrientPattern::DiagonalGradient);
        patterns.push(NutrientPattern::RadialGradient);
        patterns.push(NutrientPattern::VerticalStripes);
        patterns.push(NutrientPattern::HorizontalStripes);
        patterns.push(NutrientPattern::Noise);
        patterns.push(NutrientPattern::WaveFunction);
        patterns.push(NutrientPattern::CosineGrid);
        assert(patterns@ =~= Self::all_patterns());
        patterns
    }

    /// The pattern that follows this one when the patterns are cycled
    /// through, forwards or, with `reverse`, backwards.
    pub fn cycle(self, reverse: bool) -> (next: NutrientPattern)
        ensures
            next == self.cycled(reverse),
    {
        let patterns = Self::all();
        let current_idx: usize = self.as_u32() as usize;
        let len = patterns.len();
        let new_idx = if reverse {
            if current_idx == 0 {
                len - 1
            } else {
                current_idx - 1
            }
        } else {
            (current_idx + 1) % len
        };
        patterns[new_idx]
    }
}

/// The pattern that feeds every cell alike.
pub fn uniform() -> (pattern: NutrientPattern)
    ensures
        pattern == NutrientPattern::Uniform,
{
    NutrientPattern::Uniform
}

/// The pattern of alternating squares.
pub fn checkerboard() -> (pattern: NutrientPattern)
    ensures
        pattern == NutrientPattern::Checkerboard,
{
    NutrientPattern::Checkerboard
}

/// The pattern that rises along the diagonal.
pub fn diagonal_gradient() -> (pattern: NutrientPattern)
    ensures
        pattern == NutrientPattern::DiagonalGradient,
{
    NutrientPattern::DiagonalGradient
}

/// The pattern that falls off from the centre.
pub fn radial_gradient() -> (pattern: NutrientPattern)
    ensures
        pattern == NutrientPattern::RadialGradient,
{
    NutrientPattern::RadialGradient
}

/// The pattern of upright stripes.
pub fn vertical_stripes() -> (pattern: NutrientPattern)
    ensures
        pattern == NutrientPattern::VerticalStripes,
{
    NutrientPattern::VerticalStripes
}

/// The pattern of level stripes.
pub fn horizontal_stripes() -> (pattern: NutrientPattern)
    ensures
        pattern == NutrientPattern::HorizontalStripes,
{
    NutrientPattern::HorizontalStripes
}

/// The pattern that draws each cell at random, the same cell always alike.
pub fn noise() -> (pattern: NutrientPattern)
    ensures
        pattern == NutrientPattern::Noise,
{
    NutrientPattern::Noise
}

/// The pattern of crossing waves.
pub fn wave_function() -> (pattern: NutrientPattern)
    ensures
        pattern == NutrientPattern::WaveFunction,
{
    NutrientPattern::WaveFunction
}

} // verus!
