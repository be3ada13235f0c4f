//! The presets of the model by number: their names and the order in which
//! they are cycled through. The last preset is the custom one, whose rates
//! the user sets.

use vstd::prelude::*;

verus! {

/// The number of presets, the custom one included.
pub const PRESET_COUNT: usize = 9;

/// The number of the custom preset.
pub const CUSTOM_PRESET: usize = 8;

/// The number of the preset that a session starts with.
pub const INITIAL_PRESET: usize = 6;

/// The name of the preset with the number `index`.
pub open spec fn preset_name_text(index: int) -> Seq<char> {
    if index == 0 {
        "Brain Coral"@
    } else if index == 1 {
        "Fingerprint"@
    } else if index == 2 {
        "Mitosis"@
    } else if index == 3 {
        "Ripples"@
    } else if index == 4 {
        "Soliton Collapse"@
    } else if index == 5 {
        "U-Skate World"@
    } else if index == 6 {
        "Undulating"@
    } else if index == 7 {
        "Worms"@
    } else {
        "Custom"@
    }
}

/// The preset that follows the preset `index` when the presets are cycled
/// through, forwards or, with `reverse`, backwards.
pub open spec fn cycled_preset(index: int, reverse: bool) -> int {
    if reverse {
        if index == 0 {
            8
        } else {
            index - 1
        }
    } else {
        (index + 1) % 9
    }
}

/// The name of the preset with the number `index`.
pub fn preset_name(index: usize) -> (name: &'static str)
    requires
        index < PRESET_COUNT,
    ensures
        name@ == preset_name_text(index as int),
{
    match index {
        0 => "Brain Coral",
        1 => "Fingerprint",
        2 => "Mitosis",
        3 => "Ripples",
        4 => "Soliton Collapse",
        5 => "U-Skate World",
        6 => "Undulating",
        7 => "Worms",
        _ => "Custom",
    }
}

/// The preset that follows the preset `index`, forwards or backwards.
pub fn cycle_preset_index(index: usize, reverse: bool) -> (next: usize)
    requires
        index < PRESET_COUNT,
    ensures
        next == cycled_preset(index as int, reverse),
        next < PRESET_COUNT,
{
    if reverse {
        if index == 0 {
            8
        } else {
            index - 1
        }
    } else {
        (index + 1) % 9
    }
}

/// Whether the rates of the preset `index` are the user's own.
pub fn is_custom_preset(index: usize) -> (custom: bool)
    ensures
        custom == (index == CUSTOM_PRESET),
{
    index == CUSTOM_PRESET
}

} // verus!
