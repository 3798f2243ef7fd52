//! Porter-Duff and separable blend modes on fixed-point colour lanes.
use vstd::prelude::*;

use crate::lowp::{div255, inv, spec_div255, spec_inv};
use crate::wide::{add16, mul16, sub16, u16x16};

verus! {

/// The blend modes that the low-precision pipeline computes.
#[derive(Clone, Copy, Debug, PartialEq, Eq, Structural)]
pub enum BlendMode {
    Clear,
    SourceAtop,
    DestinationAtop,
    SourceIn,
    DestinationIn,
    SourceOut,
    DestinationOut,
    SourceOver,
    DestinationOver,
    Modulate,
    Multiply,
    Screen,
    Xor,
    Plus,
    Darken,
    Lighten,
    Exclusion,
    Difference,
    HardLight,
    Overlay,
}

/// Modes whose formula applies to the colour channels only; their alpha is
/// the source-over alpha.
pub open spec fn is_color_only(mode: BlendMode) -> bool {
    match mode {
        BlendMode::Darken | BlendMode::Lighten | BlendMode::Exclusion | BlendMode::Difference
        | BlendMode::HardLight | BlendMode::Overlay => true,
        _ => false,
    }
}

/// The smaller of two values.
pub open spec fn min_of(x: int, y: int) -> int {
    if x <= y {
        x
    } else {
        y
    }
}

/// The larger of two values.
pub open spec fn max_of(x: int, y: int) -> int {
    if x >= y {
        x
    } else {
        y
    }
}

/// The term that hard-light and overlay add to `s * inv(da) + d * inv(sa)`:
/// `2 * s * d` where `cond` holds, else `sa * da - 2 * (sa - s) * (da - d)`.
pub open spec fn light_term(cond: bool, s: int, d: int, sa: int, da: int) -> int {
    if cond {
        mul16(mul16(2, s), d)
    } else {
        sub16(mul16(sa, da), mul16(mul16(2, sub16(sa, s)), sub16(da, d)))
    }
}

/// One channel of a blend: source `s`, destination `d`, source alpha `sa`,
/// destination alpha `da`, all in 16-bit arithmetic.
pub open spec fn blend_lane(mode: BlendMode, s: int, d: int, sa: int, da: int) -> int {
    match mode {
        BlendMode::Clear => 0,
        BlendMode::SourceAtop => spec_div255(add16(mul16(s, da), mul16(d, spec_inv(sa)))),
        BlendMode::DestinationAtop => spec_div255(add16(mul16(d, sa), mul16(s, spec_inv(da)))),
        BlendMode::SourceIn => spec_div255(mul16(s, da)),
        BlendMode::DestinationIn => spec_div255(mul16(d, sa)),
        BlendMode::SourceOut => spec_div255(mul16(s, spec_inv(da))),
        BlendMode::DestinationOut => spec_div255(mul16(d, spec_inv(sa))),
        BlendMode::SourceOver => add16(s, spec_div255(mul16(d, spec_inv(sa)))),
        BlendMode::DestinationOver => add16(d, spec_div255(mul16(s, spec_inv(da)))),
        BlendMode::Modulate => spec_div255(mul16(s, d)),
        BlendMode::Multiply => spec_div255(
            add16(add16(mul16(s, spec_inv(da)), mul16(d, spec_inv(sa))), mul16(s, d)),
        ),
        BlendMode::Screen => sub16(add16(s, d), spec_div255(mul16(s, d))),
        BlendMode::Xor => spec_div255(add16(mul16(s, spec_inv(da)), mul16(d, spec_inv(sa)))),
        BlendMode::Plus => min_of(add16(s, d), 255),
        BlendMode::Darken => sub16(add16(s, d), spec_div255(max_of(mul16(s, da), mul16(d, sa)))),
        BlendMode::Lighten => sub16(add16(s, d), spec_div255(min_of(mul16(s, da), mul16(d, sa)))),
        BlendMode::Exclusion => sub16(add16(s, d), mul16(2, spec_div255(mul16(s, d)))),
        BlendMode::Difference => sub16(
            add16(s, d),
            mul16(2, spec_div255(min_of(mul16(s, da), mul16(d, sa)))),
        ),
        BlendMode::HardLight => spec_div255(
            add16(
                add16(mul16(s, spec_inv(da)), mul16(d, spec_inv(sa))),
                light_term(add16(s, s) <= sa, s, d, sa, da),
            ),
        ),
        BlendMode::Overlay => spec_div255(
            add16(
                add16(mul16(s, spec_inv(da)), mul16(d, spec_inv(sa))),
                light_term(add16(d, d) <= da, s, d, sa, da),
            ),
        ),
    }
}

/// The alpha that a blend produces from source alpha `sa` and destination
/// alpha `da`.
pub open spec fn blend_alpha(mode: BlendMode, sa: int, da: int) -> int {
    if is_color_only(mode) {
        blend_lane(BlendMode::SourceOver, sa, da, sa, da)
    } else {
        blend_lane(mode, sa, da, sa, da)
    }
}

/// `s * inv(da) + d * inv(sa)`, the sum that several modes start from.
fn cross(s: &u16x16, d: &u16x16, sa: &u16x16, da: &u16x16) -> (r: u16x16)
    ensures
        forall|i: int|
            0 <= i < 16 ==> r@[i] == add16(
                mul16(s@[i] as int, spec_inv(da@[i] as int)),
                mul16(d@[i] as int, spec_inv(sa@[i] as int)),
            ),
{
    s.mul(&inv(*da)).add(&d.mul(&inv(*sa)))
}

/// `sa * da - 2 * (sa - s) * (da - d)`, lane-wise.
fn light_else(s: &u16x16, d: &u16x16, sa: &u16x16, da: &u16x16) -> (r: u16x16)
    ensures
        forall|i: int|
            0 <= i < 16 ==> r@[i] == light_term(
                false,
                s@[i] as int,
                d@[i] as int,
                sa@[i] as int,
                da@[i] as int,
            ),
{
    sa.mul(da).sub(&u16x16::splat(2).mul(&sa.sub(s)).mul(&da.sub(d)))
}

/// Hard-light (`by_dst` false) or overlay (`by_dst` true) on one channel.
fn light(by_dst: bool, s: &u16x16, d: &u16x16, sa: &u16x16, da: &u16x16) -> (r: u16x16)
    ensures
        forall|i: int|
            0 <= i < 16 ==> r@[i] == blend_lane(
                if by_dst {
                    BlendMode::Overlay
                } else {
                    BlendMode::HardLight
                },
                s@[i] as int,
                d@[i] as int,
                sa@[i] as int,
                da@[i] as int,
            ),
{
    let mask = if by_dst {
        d.add(d).cmp_le(da)
    } else {
        s.add(s).cmp_le(sa)
    };
    let twice = u16x16::splat(2).mul(s).mul(d);
    let other = light_else(s, d, sa, da);
    div255(cross(s, d, sa, da).add(&mask.if_then_else(&twice, &other)))
}

/// One channel of `mode`, lane-wise.
pub fn blend_channel(mode: BlendMode, s: &u16x16, d: &u16x16, sa: &u16x16, da: &u16x16) -> (r:
    u16x16)
    ensures
        forall|i: int|
            0 <= i < 16 ==> r@[i] == blend_lane(
                mode,
                s@[i] as int,
                d@[i] as int,
                sa@[i] as int,
                da@[i] as int,
            ),
{
    match mode {
        BlendMode::Clear => u16x16::splat(0),
        BlendMode::SourceAtop => div255(s.mul(da).add(&d.mul(&inv(*sa)))),
        BlendMode::DestinationAtop => div255(d.mul(sa).add(&s.mul(&inv(*da)))),
        BlendMode::SourceIn => div255(s.mul(da)),
        BlendMode::DestinationIn => div255(d.mul(sa)),
        BlendMode::SourceOut => div255(s.mul(&inv(*da))),
        BlendMode::DestinationOut => div255(d.mul(&inv(*sa))),
        BlendMode::SourceOver => s.add(&div255(d.mul(&inv(*sa)))),
        BlendMode::DestinationOver => d.add(&div255(s.mul(&inv(*da)))),
        BlendMode::Modulate => div255(s.mul(d)),
        BlendMode::Multiply => div255(cross(s, d, sa, da).add(&s.mul(d))),
        BlendMode::Screen => s.add(d).sub(&div255(s.mul(d))),
        BlendMode::Xor => div255(cross(s, d, sa, da)),
        BlendMode::Plus => s.add(d).min(&u16x16::splat(255)),
        BlendMode::Darken => s.add(d).sub(&div255(s.mul(da).max(&d.mul(sa)))),
        BlendMode::Lighten => s.add(d).sub(&div255(s.mul(da).min(&d.mul(sa)))),
        BlendMode::Exclusion => s.add(d).sub(&u16x16::splat(2).mul(&div255(s.mul(d)))),
        BlendMode::Difference => s.add(d).sub(
            &u16x16::splat(2).mul(&div255(s.mul(da).min(&d.mul(sa)))),
        ),
        BlendMode::HardLight => light(false, s, d, sa, da),
        BlendMode::Overlay => light(true, s, d, sa, da),
    }
}

} // verus!
