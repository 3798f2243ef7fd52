//! Laws of the fixed-point helpers, the blend modes and the tail stages.
use vstd::prelude::*;

use crate::blend::{blend_lane, light_term, BlendMode};
use crate::lowp::{
    blended, moved_to_source, source_pixels, spec_div255, spec_inv, spec_lerp, with_dst,
    PipelineView,
};
use crate::pixel::PremultipliedColorU8;
use crate::context::ScreenIntRect;
use crate::program::{
    is_tail_stage, placed, run, run_prefix, run_row, run_rows, step, Stage, State,
};
use crate::wide::mul16;

verus! {

/// A product of two channel values needs no wraparound.
proof fn lemma_mul16_small(x: int, y: int)
    requires
        0 <= x <= 255,
        0 <= y <= 255,
    ensures
        mul16(x, y) == x * y,
        0 <= x * y <= 255 * 255,
{
    assert(0 <= x * y <= 255 * 255) by (nonlinear_arith)
        requires
            0 <= x <= 255,
            0 <= y <= 255,
    ;
}

/// `div255(x * 255) == x` for every channel value `x`.
pub proof fn law_div255_of_times_255(x: int)
    requires
        0 <= x <= 255,
    ensures
        spec_div255(mul16(x, 255)) == x,
{
    lemma_mul16_small(x, 255);
    assert((x * 255 + 255) / 256 == x) by (nonlinear_arith)
        requires
            0 <= x <= 255,
    ;
}

/// `inv(inv(x)) == x` for every 16-bit `x`.
pub proof fn law_inv_involutive(x: int)
    requires
        0 <= x <= 0xFFFF,
    ensures
        spec_inv(spec_inv(x)) == x,
{
}

/// `lerp(a, b, 0) == a` and `lerp(a, b, 255) == b` for channel values `a`
/// and `b`.
pub proof fn law_lerp_ends(a: int, b: int)
    requires
        0 <= a <= 255,
        0 <= b <= 255,
    ensures
        spec_lerp(a, b, 0) == a,
        spec_lerp(a, b, 255) == b,
{
    lemma_mul16_small(a, 255);
    lemma_mul16_small(b, 0);
    lemma_mul16_small(a, 0);
    lemma_mul16_small(b, 255);
    law_div255_of_times_255(a);
    law_div255_of_times_255(b);
}

/// Clear turns every lane of every channel to zero, whatever the source and
/// the destination, so the pixels it gives are all zero.
pub proof fn law_clear_is_zero(v: PipelineView)
    ensures
        forall|i: int|
            0 <= i < 16 ==> {
                &&& #[trigger] blended(BlendMode::Clear, v).r[i] == 0
                &&& blended(BlendMode::Clear, v).g[i] == 0
                &&& blended(BlendMode::Clear, v).b[i] == 0
                &&& blended(BlendMode::Clear, v).a[i] == 0
            },
        source_pixels(blended(BlendMode::Clear, v)) == Seq::new(
            16,
            |i: int| PremultipliedColorU8 { r: 0, g: 0, b: 0, a: 0 },
        ),
{
    assert(source_pixels(blended(BlendMode::Clear, v)) =~= Seq::new(
        16,
        |i: int| PremultipliedColorU8 { r: 0, g: 0, b: 0, a: 0 },
    ));
}

/// Source-over with an opaque source gives the source; with a transparent
/// (premultiplied) source it gives the destination.
pub proof fn law_source_over_ends(s: int, d: int, da: int)
    requires
        0 <= s <= 255,
        0 <= d <= 255,
        0 <= da <= 255,
    ensures
        blend_lane(BlendMode::SourceOver, s, d, 255, da) == s,
        blend_lane(BlendMode::SourceOver, 0, d, 0, da) == d,
{
    lemma_mul16_small(d, 0);
    lemma_mul16_small(d, 255);
    law_div255_of_times_255(d);
}

/// Source-over of premultiplied channel values stays premultiplied: each
/// result is at most the resulting alpha, which is at most 255, and nothing
/// wraps around.
pub proof fn law_source_over_stays_premultiplied(s: int, d: int, sa: int, da: int)
    requires
        0 <= s <= sa <= 255,
        0 <= d <= da <= 255,
    ensures
        blend_lane(BlendMode::SourceOver, s, d, sa, da) == s + (d * (255 - sa) + 255) / 256,
        blend_lane(BlendMode::SourceOver, s, d, sa, da) <= blend_lane(
            BlendMode::SourceOver,
            sa,
            da,
            sa,
            da,
        ),
        blend_lane(BlendMode::SourceOver, sa, da, sa, da) <= 255,
{
    lemma_mul16_small(d, 255 - sa);
    lemma_mul16_small(da, 255 - sa);
    assert((d * (255 - sa) + 255) / 256 <= (da * (255 - sa) + 255) / 256
        && (da * (255 - sa) + 255) / 256 <= 255 - sa) by (nonlinear_arith)
        requires
            0 <= d <= da <= 255,
            0 <= sa <= 255,
    ;
}

/// Modulate by an opaque channel keeps the other; by a zero channel it gives
/// zero.
pub proof fn law_modulate_ends(x: int, sa: int, da: int)
    requires
        0 <= x <= 255,
    ensures
        blend_lane(BlendMode::Modulate, x, 255, sa, da) == x,
        blend_lane(BlendMode::Modulate, x, 0, sa, da) == 0,
{
    lemma_mul16_small(x, 255);
    lemma_mul16_small(x, 0);
    law_div255_of_times_255(x);
}

/// Plus is the sum of the two channels, saturated at 255.
pub proof fn law_plus_saturates(s: int, d: int, sa: int, da: int)
    requires
        0 <= s <= 255,
        0 <= d <= 255,
    ensures
        blend_lane(BlendMode::Plus, s, d, sa, da) == if s + d <= 255 {
            s + d
        } else {
            255
        },
        blend_lane(BlendMode::Plus, s, d, sa, da) <= 255,
{
}

/// What each blend mode gives for a zero source channel, in plain integer
/// arithmetic: the destination weighted by the mode's destination term.
pub open spec fn over_zero_source(mode: BlendMode, d: int, sa: int, da: int) -> int {
    match mode {
        BlendMode::Clear | BlendMode::SourceIn | BlendMode::SourceOut | BlendMode::Modulate => 0,
        BlendMode::SourceOver | BlendMode::DestinationOut | BlendMode::SourceAtop | BlendMode::Xor
        | BlendMode::Multiply | BlendMode::HardLight => (d * (255 - sa) + 255) / 256,
        BlendMode::DestinationIn | BlendMode::DestinationAtop => (d * sa + 255) / 256,
        BlendMode::DestinationOver | BlendMode::Screen | BlendMode::Plus | BlendMode::Lighten
        | BlendMode::Exclusion | BlendMode::Difference => d,
        BlendMode::Darken => d - (d * sa + 255) / 256,
        BlendMode::Overlay => (d * (255 - sa) + if 2 * d <= da {
            0
        } else {
            sa * (2 * d - da)
        } + 255) / 256,
    }
}

/// With a zero source channel every mode reduces to its destination term,
/// computed without wraparound, for channel values with `d <= da`.
pub proof fn law_zero_source(mode: BlendMode, d: int, sa: int, da: int)
    requires
        0 <= d <= da <= 255,
        0 <= sa <= 255,
    ensures
        blend_lane(mode, 0, d, sa, da) == over_zero_source(mode, d, sa, da),
{
    lemma_mul16_small(d, 255 - sa);
    lemma_mul16_small(d, sa);
    lemma_mul16_small(0, da);
    lemma_mul16_small(0, 255 - da);
    lemma_mul16_small(0, d);
    lemma_mul16_small(sa, da);
    lemma_mul16_small(2, 0);
    law_div255_of_times_255(d);
    assert(0 <= (d * sa + 255) / 256 <= d) by (nonlinear_arith)
        requires
            0 <= d <= 255,
            0 <= sa <= 255,
    ;
    if mode == BlendMode::Overlay && !(2 * d <= da) {
        assert(0 <= 2 * sa <= 510);
        assert(mul16(2 * sa, da - d) == 2 * sa * (da - d) && 2 * sa * (da - d) <= sa * da
            && sa * da - 2 * sa * (da - d) == sa * (2 * d - da) && 0 <= sa * (2 * d - da)
            && d * (255 - sa) + sa * (2 * d - da) <= 255 * 255) by (nonlinear_arith)
            requires
                0 <= d <= da <= 255,
                0 <= sa <= 255,
                2 * d > da,
        ;
        assert(light_term(false, 0, d, sa, da) == sa * (2 * d - da));
    }
}

/// The pixels that a load of sixteen pixels followed by a store writes back
/// are the pixels loaded.
pub proof fn law_store_after_load(v: PipelineView, px: Seq<PremultipliedColorU8>)
    requires
        px.len() == 16,
    ensures
        source_pixels(moved_to_source(with_dst(v, px))) == px,
{
    assert(source_pixels(moved_to_source(with_dst(v, px))) =~= px);
}

/// The registers with `tail` lanes in use.
pub open spec fn with_tail(v: PipelineView, tail: int) -> PipelineView {
    PipelineView { tail: tail as nat, ..v }
}

/// Index of the pipeline's first pixel in a pixmap of `stride` pixels per
/// row.
pub open spec fn first_pixel(v: PipelineView, stride: int) -> int {
    stride * v.dy + v.dx
}

/// A tail stage leaves every pixel outside its `tail` pixels as it was.
pub proof fn law_tail_keeps_rest(st: State, stride: int, j: int)
    requires
        1 <= st.0.tail <= 16,
        0 <= first_pixel(st.0, stride),
        first_pixel(st.0, stride) + st.0.tail <= st.1.len(),
        0 <= j < st.1.len(),
        !(first_pixel(st.0, stride) <= j < first_pixel(st.0, stride) + st.0.tail),
    ensures
        step(Stage::StoreTail, st, stride).1[j] == st.1[j],
        step(Stage::SourceOverRgbaTail, st, stride).1[j] == st.1[j],
        step(Stage::LoadDstTail, st, stride).1 == st.1,
{
}

/// On its first `tail` lanes and pixels a tail stage gives what the
/// full-width stage gives on the same registers and pixmap.
pub proof fn law_tail_matches_full(st: State, stride: int, i: int)
    requires
        1 <= st.0.tail <= 16,
        0 <= first_pixel(st.0, stride),
        first_pixel(st.0, stride) + 16 <= st.1.len(),
        0 <= i < st.0.tail,
    ensures
        ({
            let full = (with_tail(st.0, 16), st.1);
            let j = first_pixel(st.0, stride) + i;
            &&& step(Stage::StoreTail, st, stride).1[j] == step(Stage::Store, full, stride).1[j]
            &&& step(Stage::SourceOverRgbaTail, st, stride).1[j] == step(
                Stage::SourceOverRgba,
                full,
                stride,
            ).1[j]
            &&& step(Stage::SourceOverRgbaTail, st, stride).0.r[i] == step(
                Stage::SourceOverRgba,
                full,
                stride,
            ).0.r[i]
            &&& step(Stage::SourceOverRgbaTail, st, stride).0.g[i] == step(
                Stage::SourceOverRgba,
                full,
                stride,
            ).0.g[i]
            &&& step(Stage::SourceOverRgbaTail, st, stride).0.b[i] == step(
                Stage::SourceOverRgba,
                full,
                stride,
            ).0.b[i]
            &&& step(Stage::SourceOverRgbaTail, st, stride).0.a[i] == step(
                Stage::SourceOverRgba,
                full,
                stride,
            ).0.a[i]
            &&& step(Stage::LoadDstTail, st, stride).0.dr[i] == step(
                Stage::LoadDst,
                full,
                stride,
            ).0.dr[i]
            &&& step(Stage::LoadDstTail, st, stride).0.dg[i] == step(
                Stage::LoadDst,
                full,
                stride,
            ).0.dg[i]
            &&& step(Stage::LoadDstTail, st, stride).0.db[i] == step(
                Stage::LoadDst,
                full,
                stride,
            ).0.db[i]
            &&& step(Stage::LoadDstTail, st, stride).0.da[i] == step(
                Stage::LoadDst,
                full,
                stride,
            ).0.da[i]
        }),
{
}

/// `j` lies in none of the `n` pixels from `off` on.
pub open spec fn outside(j: int, off: int, n: int) -> bool {
    !(off <= j < off + n)
}

/// The stages of `prog` write at most `tail` pixels from the pipeline's
/// position: all of them are tail stages, or `tail` is a whole group.
pub open spec fn within_tail(prog: Seq<Stage>, tail: int) -> bool {
    tail == 16 || forall|j: int| 0 <= j < prog.len() ==> is_tail_stage(#[trigger] prog[j])
}

/// A prefix of a program keeps the position and the lane count, and writes
/// no pixel outside the `tail` pixels from the position.
proof fn lemma_run_prefix_footprint(prog: Seq<Stage>, k: int, st: State, stride: int, j: int)
    requires
        0 <= k <= prog.len(),
        1 <= st.0.tail <= 16,
        within_tail(prog, st.0.tail as int),
        outside(j, stride * st.0.dy + st.0.dx, st.0.tail as int),
    ensures
        run_prefix(prog, k, st, stride).0.dx == st.0.dx,
        run_prefix(prog, k, st, stride).0.dy == st.0.dy,
        run_prefix(prog, k, st, stride).0.tail == st.0.tail,
        run_prefix(prog, k, st, stride).1.len() == st.1.len(),
        0 <= j < st.1.len() ==> run_prefix(prog, k, st, stride).1[j] == st.1[j],
    decreases k,
{
    if k > 0 {
        lemma_run_prefix_footprint(prog, k - 1, st, stride, j);
    }
}

/// One row from column `x` to `end` writes no pixel of the pixmap outside
/// columns `x .. end` of that row.
proof fn lemma_run_row_footprint(
    prog: Seq<Stage>,
    tail_prog: Seq<Stage>,
    st: State,
    stride: int,
    x: int,
    end: int,
    y: int,
    j: int,
)
    requires
        0 <= x,
        0 <= y,
        forall|k: int| 0 <= k < tail_prog.len() ==> is_tail_stage(#[trigger] tail_prog[k]),
        outside(j, stride * y + x, end - x),
    ensures
        run_row(prog, tail_prog, st, stride, x, end, y).1.len() == st.1.len(),
        0 <= j < st.1.len() ==> run_row(prog, tail_prog, st, stride, x, end, y).1[j] == st.1[j],
    decreases end - x,
{
    if x + 16 <= end {
        let st1 = (placed(st.0, x, y, 16), st.1);
        lemma_run_prefix_footprint(prog, prog.len() as int, st1, stride, j);
        let next = run(prog, st1, stride);
        lemma_run_row_footprint(prog, tail_prog, next, stride, x + 16, end, y, j);
    } else if x < end {
        let st1 = (placed(st.0, x, y, end - x), st.1);
        lemma_run_prefix_footprint(tail_prog, tail_prog.len() as int, st1, stride, j);
    }
}

/// Pixel index `j` lies in row `row` of `rect`, in a pixmap of `stride`
/// pixels per row.
pub open spec fn in_rect_row(j: int, stride: int, rect: ScreenIntRect, row: int) -> bool {
    stride * row + rect.x <= j < stride * row + rect.spec_right()
}

/// The driver writes no pixel outside the rectangle: a pixel that lies in
/// none of the rows' column ranges of `rect` from row `y` down keeps its
/// value (`start` gives the pixels of `run_rows` from the first row).
pub proof fn law_start_keeps_outside(
    prog: Seq<Stage>,
    tail_prog: Seq<Stage>,
    st: State,
    stride: int,
    rect: ScreenIntRect,
    y: int,
    j: int,
)
    requires
        0 <= y,
        forall|k: int| 0 <= k < tail_prog.len() ==> is_tail_stage(#[trigger] tail_prog[k]),
        forall|row: int|
            y <= row < rect.spec_bottom() ==> !#[trigger] in_rect_row(j, stride, rect, row),
    ensures
        run_rows(prog, tail_prog, st, stride, rect, y).1.len() == st.1.len(),
        0 <= j < st.1.len() ==> run_rows(prog, tail_prog, st, stride, rect, y).1[j] == st.1[j],
    decreases rect.spec_bottom() - y,
{
    if y < rect.spec_bottom() {
        assert(!in_rect_row(j, stride, rect, y));
        lemma_run_row_footprint(
            prog,
            tail_prog,
            st,
            stride,
            rect.x as int,
            rect.spec_right(),
            y,
            j,
        );
        let next = run_row(prog, tail_prog, st, stride, rect.x as int, rect.spec_right(), y);
        law_start_keeps_outside(prog, tail_prog, next, stride, rect, y + 1, j);
    }
}

} // verus!
