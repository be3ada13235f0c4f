//! Moving from one colour table to another: the blend of two tables at a
//! given progress, and the choice of the table to move to.

use crate::fraction::Fraction;
use crate::lut_manager::{LutData, LutView, LUT_CHANNEL_LEN};
use crate::utils::{lemma_weighted_sum, weighted_sum};
use rand::Rng;
use vstd::arithmetic::div_mod::{lemma_div_is_ordered, lemma_fundamental_div_mod_converse};
use vstd::prelude::*;

verus! {

/// The channel value at the weight `t` on the way from `a` to `b`: the
/// weighted mean `a * (1 - t) + b * t`, rounded to the nearest integer, a
/// half upwards.
pub open spec fn rounded_mix(a: u8, b: u8, t: Fraction) -> int {
    (2 * weighted_sum(a, b, t) + t.den) / (2 * t.den)
}

/// One channel of a blend: entry by entry the rounded mix of the two
/// channels.
pub open spec fn blended_channel(source: Seq<u8>, target: Seq<u8>, t: Fraction) -> Seq<u8> {
    Seq::new(LUT_CHANNEL_LEN as nat, |i: int| rounded_mix(source[i], target[i], t) as u8)
}

/// The table on the way from `source` to `target` at the progress `t`. It
/// carries the name of the target.
pub open spec fn blended(source: LutView, target: LutView, t: Fraction) -> LutView {
    LutView {
        name: target.name,
        red: blended_channel(source.red, target.red, t),
        green: blended_channel(source.green, target.green, t),
        blue: blended_channel(source.blue, target.blue, t),
    }
}

/// The rounded mix of two channel values lies between them, and is one of
/// them at the ends.
pub proof fn lemma_rounded_mix(a: u8, b: u8, t: Fraction)
    requires
        t.is_unit(),
    ensures
        a <= b ==> a <= rounded_mix(a, b, t) <= b,
        b <= a ==> b <= rounded_mix(a, b, t) <= a,
        t.num == 0 ==> rounded_mix(a, b, t) == a,
        t.num == t.den ==> rounded_mix(a, b, t) == b,
{
    let d = t.den as int;
    let sum = weighted_sum(a, b, t);
    lemma_weighted_sum(a, b, t);
    // a half is rounded away: (2 * d * v + d) / (2 * d) is v
    assert((a as int) * (2 * d) == 2 * (d * a) && (b as int) * (2 * d) == 2 * (d * b))
        by (nonlinear_arith);
    lemma_fundamental_div_mod_converse(2 * (d * a) + d, 2 * d, a as int, d);
    lemma_fundamental_div_mod_converse(2 * (d * b) + d, 2 * d, b as int, d);
    if a <= b {
        lemma_div_is_ordered(2 * (d * a) + d, 2 * sum + d, 2 * d);
        lemma_div_is_ordered(2 * sum + d, 2 * (d * b) + d, 2 * d);
    } else {
        lemma_div_is_ordered(2 * (d * b) + d, 2 * sum + d, 2 * d);
        lemma_div_is_ordered(2 * sum + d, 2 * (d * a) + d, 2 * d);
    }
}

/// The rounded mix of `a` and `b` in which `b` has the weight `t`.
pub fn lerp_u8(a: u8, b: u8, t: Fraction) -> (mix: u8)
    requires
        t.is_unit(),
    ensures
        mix == rounded_mix(a, b, t),
{
    proof {
        lemma_rounded_mix(a, b, t);
        lemma_weighted_sum(a, b, t);
    }
    let rest: u128 = (t.den - t.num) as u128;
    let sum: u128 = (a as u128) * rest + (b as u128) * (t.num as u128);
    ((2 * sum + t.den as u128) / (2 * (t.den as u128))) as u8
}

/// Blends one channel of two tables.
fn blend_channel(source: &Vec<u8>, target: &Vec<u8>, t: Fraction) -> (channel: Vec<u8>)
    requires
        source@.len() == LUT_CHANNEL_LEN,
        target@.len() == LUT_CHANNEL_LEN,
        t.is_unit(),
    ensures
        channel@ == blended_channel(source@, target@, t),
{
    let mut channel: Vec<u8> = Vec::new();
    let mut i: usize = 0;
    while i < LUT_CHANNEL_LEN
        invariant
            i <= LUT_CHANNEL_LEN,
            source@.len() == LUT_CHANNEL_LEN,
            target@.len() == LUT_CHANNEL_LEN,
            t.is_unit(),
            channel@.len() == i,
            forall|k: int|
                0 <= k < i ==> channel@[k] == rounded_mix(source@[k], target@[k], t) as u8,
        decreases LUT_CHANNEL_LEN - i,
    {
        channel.push(lerp_u8(source[i], target[i], t));
        i = i + 1;
    }
    assert(channel@ =~= blended_channel(source@, target@, t));
    channel
}

/// The table on the way from `source` to `target` at the progress
/// `progress`.
pub fn blend_luts(source: &LutData, target: &LutData, progress: Fraction) -> (blend: LutData)
    requires
        source@.is_complete(),
        target@.is_complete(),
        progress.is_unit(),
    ensures
        blend@ == blended(source@, target@, progress),
        blend@.is_complete(),
{
    LutData {
        name: target.name.clone(),
        red: blend_channel(&source.red, &target.red, progress),
        green: blend_channel(&source.green, &target.green, progress),
        blue: blend_channel(&source.blue, &target.blue, progress),
    }
}

/// At no progress the blend holds the channels of the source, and at full
/// progress it is the target.
pub proof fn lemma_blended_at_the_ends(source: LutView, target: LutView, t: Fraction)
    requires
        source.is_complete(),
        target.is_complete(),
        t.is_unit(),
    ensures
        t.num == 0 ==> blended(source, target, t) == (LutView { name: target.name, ..source }),
        t.num == t.den ==> blended(source, target, t) == target,
{
    let blend = blended(source, target, t);
    assert forall|i: int| 0 <= i < 256 implies (t.num == 0 ==> blend.red[i] == source.red[i]
        && blend.green[i] == source.green[i] && blend.blue[i] == source.blue[i]) && (t.num
        == t.den ==> blend.red[i] == target.red[i] && blend.green[i] == target.green[i]
        && blend.blue[i] == target.blue[i]) by {
        lemma_rounded_mix(source.red[i], target.red[i], t);
        lemma_rounded_mix(source.green[i], target.green[i], t);
        lemma_rounded_mix(source.blue[i], target.blue[i], t);
    }
    if t.num == 0 {
        assert(blend.red =~= source.red);
        assert(blend.green =~= source.green);
        assert(blend.blue =~= source.blue);
    }
    if t.num == t.den {
        assert(blend.red =~= target.red);
        assert(blend.green =~= target.green);
        assert(blend.blue =~= target.blue);
    }
}

/// The table before `current` among `len` tables, the last one before the
/// first.
pub open spec fn previous_index(current: int, len: int) -> int {
    if current == 0 {
        len - 1
    } else {
        current - 1
    }
}

/// The table after `current` among `len` tables, the first one after the
/// last.
pub open spec fn next_index(current: int, len: int) -> int {
    (current + 1) % len
}

/// The table that a transition goes to. Backwards it is the previous table.
/// Forwards it is the next table, but in the psychedelic mode a table drawn
/// at random: the first draw, or the second where the first drew the current
/// table again. With a single table the psychedelic mode stays on it. An
/// index beyond the tables is replaced by the first table.
pub open spec fn transition_target(
    current: int,
    len: int,
    go_reverse: bool,
    psychedelic: bool,
    first_draw: int,
    second_draw: int,
) -> int {
    let target = if go_reverse {
        previous_index(current, len)
    } else if psychedelic {
        if len > 1 {
            if first_draw == current {
                second_draw
            } else {
                first_draw
            }
        } else {
            current
        }
    } else {
        next_index(current, len)
    };
    if target >= len {
        0
    } else {
        target
    }
}

/// Whether choosing the target of a transition draws at random.
pub open spec fn target_is_drawn(len: int, go_reverse: bool, psychedelic: bool) -> bool {
    !go_reverse && psychedelic && len > 1
}

/// The table before or after `current` among `len` tables.
pub fn adjacent_index(current: usize, len: usize, reverse: bool) -> (index: usize)
    requires
        len > 0,
        current < len,
    ensures
        index == if reverse {
            previous_index(current as int, len as int)
        } else {
            next_index(current as int, len as int)
        },
        index < len,
{
    if reverse {
        if current == 0 {
            len - 1
        } else {
            current - 1
        }
    } else {
        (current + 1) % len
    }
}

/// The table that a transition goes to, given what the two draws gave.
pub fn pick_transition_target(
    current: usize,
    len: usize,
    go_reverse: bool,
    psychedelic: bool,
    first_draw: usize,
    second_draw: usize,
) -> (target: usize)
    requires
        len > 0,
        current < len,
    ensures
        target == transition_target(
            current as int,
            len as int,
            go_reverse,
            psychedelic,
            first_draw as int,
            second_draw as int,
        ),
        target < len,
{
    let mut new_target_lut_index: usize;
    if go_reverse {
        new_target_lut_index = if current == 0 {
            len - 1
        } else {
            current - 1
        };
    } else {
        if psychedelic {
            if len > 1 {
                new_target_lut_index = first_draw;
                if new_target_lut_index == current {
                    new_target_lut_index = second_draw;
                }
            } else {
                new_target_lut_index = current;
            }
        } else {
            new_target_lut_index = (current + 1) % len;
        }
    }
    if new_target_lut_index >= len {
        new_target_lut_index = 0;
    }
    new_target_lut_index
}

/// An index below `len`, drawn at random.
///
/// This is `Rng::gen_range` on the thread's generator from `rand::thread_rng`,
/// with the range from zero up to `len`, which is not empty. The generator
/// returns a value of the range; nothing more is known of it.
#[verifier::external_body]
fn random_index(len: usize) -> (index: usize)
    requires
        len > 0,
    ensures
        index < len,
{
    rand::thread_rng().gen_range(0..len)
}

/// Chooses the table that a transition goes to, drawing at random where the
/// psychedelic mode asks for it. Whatever is drawn, the result is one of the
/// tables; where nothing is drawn it is the previous, the next or the
/// current table.
pub fn choose_transition_target(
    current: usize,
    len: usize,
    go_reverse: bool,
    psychedelic: bool,
) -> (target: usize)
    requires
        len > 0,
        current < len,
    ensures
        target < len,
        exists|first_draw: int, second_draw: int|
            0 <= first_draw < len && 0 <= second_draw < len && target == #[trigger] transition_target(
                current as int,
                len as int,
                go_reverse,
                psychedelic,
                first_draw,
                second_draw,
            ),
        !target_is_drawn(len as int, go_reverse, psychedelic) ==> target == transition_target(
            current as int,
            len as int,
            go_reverse,
            psychedelic,
            0,
            0,
        ),
{
    let drawn = !go_reverse && psychedelic && len > 1;
    let first_draw = if drawn {
        random_index(len)
    } else {
        0
    };
    let second_draw = if drawn && first_draw == current {
        random_index(len)
    } else {
        first_draw
    };
    let target = pick_transition_target(
        current,
        len,
        go_reverse,
        psychedelic,
        first_draw,
        second_draw,
    );
    assert(target == transition_target(
        current as int,
        len as int,
        go_reverse,
        psychedelic,
        first_draw as int,
        second_draw as int,
    ));
    target
}

} // verus!
