//! Programs of stages, and the driver that runs them over a rectangle.
use vstd::prelude::*;

use crate::blend::BlendMode;
use crate::context::{write_row, MaskCtx, PixelsCtx, ScreenIntRect, UniformColorCtx};
use crate::lowp::{
    blend, blended, lerp_1_float, lerp_u8, lerped, load_dst, load_dst_tail, mask_lanes,
    move_destination_to_source, move_source_to_destination, moved_to_destination,
    moved_to_source, padded, premultiplied, premultiply, scale_1_float, scale_u8, scaled,
    source_over_rgba, source_over_rgba_tail, source_pixels, store, store_tail, uniform_color,
    with_dst, with_uniform, fresh_view, Pipeline, PipelineView, STAGE_WIDTH,
};
use crate::pixel::PremultipliedColorU8;

verus! {

/// One entry of a program: a stage with the context it reads. These are the
/// stages that compute in fixed point; a program runs them in order.
#[derive(Clone, Debug)]
pub enum Stage {
    MoveSourceToDestination,
    MoveDestinationToSource,
    Premultiply,
    UniformColor(UniformColorCtx),
    LoadDst,
    LoadDstTail,
    Store,
    StoreTail,
    ScaleU8(MaskCtx),
    LerpU8(MaskCtx),
    Scale1Float(u16),
    Lerp1Float(u16),
    Blend(BlendMode),
    SourceOverRgba,
    SourceOverRgbaTail,
}

/// The stage reads and writes nothing outside the pixmap and its mask when
/// run at `(dx, dy)` with `tail` lanes in use, over a pixmap of `len`
/// pixels and `stride` pixels per row.
pub open spec fn stage_ready(s: Stage, dx: int, dy: int, tail: int, stride: int, len: int) -> bool {
    match s {
        Stage::LoadDst | Stage::Store | Stage::SourceOverRgba => stride * dy + dx + 16 <= len,
        Stage::LoadDstTail | Stage::StoreTail | Stage::SourceOverRgbaTail => 1 <= tail <= 16
            && stride * dy + dx + tail <= len,
        Stage::ScaleU8(m) | Stage::LerpU8(m) => m.covers(dx, dy, tail),
        _ => true,
    }
}

/// The stage touches at most `tail` pixels.
pub open spec fn is_tail_stage(s: Stage) -> bool {
    match s {
        Stage::LoadDst | Stage::Store | Stage::SourceOverRgba => false,
        _ => true,
    }
}

/// The pixmap's pixels and the pipeline's registers.
pub type State = (PipelineView, Seq<PremultipliedColorU8>);

/// What one stage does to the registers and to a pixmap of `stride` pixels
/// per row.
pub open spec fn step(s: Stage, st: State, stride: int) -> State {
    let v = st.0;
    let px = st.1;
    let off = stride * v.dy + v.dx;
    let window = px.subrange(off, off + v.tail);
    match s {
        Stage::MoveSourceToDestination => (moved_to_destination(v), px),
        Stage::MoveDestinationToSource => (moved_to_source(v), px),
        Stage::Premultiply => (premultiplied(v), px),
        Stage::UniformColor(c) => (with_uniform(v, c.rgba@), px),
        Stage::LoadDst => (with_dst(v, px.subrange(off, off + 16)), px),
        Stage::LoadDstTail => (with_dst(v, padded(v.tail as int, window)), px),
        Stage::Store => (v, write_row(px, off, 16, source_pixels(v))),
        Stage::StoreTail => (v, write_row(px, off, v.tail as int, source_pixels(v))),
        Stage::ScaleU8(m) => (scaled(v, mask_lanes(m, v.dx as int, v.dy as int, v.tail as int)), px),
        Stage::LerpU8(m) => (lerped(v, mask_lanes(m, v.dx as int, v.dy as int, v.tail as int)), px),
        Stage::Scale1Float(c) => (scaled(v, Seq::new(16, |i: int| c)), px),
        Stage::Lerp1Float(c) => (lerped(v, Seq::new(16, |i: int| c)), px),
        Stage::Blend(mode) => (blended(mode, v), px),
        Stage::SourceOverRgba => {
            let w = blended(BlendMode::SourceOver, with_dst(v, px.subrange(off, off + 16)));
            (w, write_row(px, off, 16, source_pixels(w)))
        },
        Stage::SourceOverRgbaTail => {
            let w = blended(BlendMode::SourceOver, with_dst(v, padded(v.tail as int, window)));
            (w, write_row(px, off, v.tail as int, source_pixels(w)))
        },
    }
}

/// The first `k` stages of `prog`, run in order from `st`.
pub open spec fn run_prefix(prog: Seq<Stage>, k: int, st: State, stride: int) -> State
    decreases k,
{
    if k <= 0 {
        st
    } else {
        step(prog[k - 1], run_prefix(prog, k - 1, st, stride), stride)
    }
}

/// All of `prog`, run in order from `st`.
pub open spec fn run(prog: Seq<Stage>, st: State, stride: int) -> State {
    run_prefix(prog, prog.len() as int, st, stride)
}

/// Running a prefix keeps the position, the lane count and the pixmap's
/// size.
pub proof fn lemma_run_prefix_keeps_frame(prog: Seq<Stage>, k: int, st: State, stride: int)
    requires
        0 <= k <= prog.len(),
    ensures
        run_prefix(prog, k, st, stride).0.dx == st.0.dx,
        run_prefix(prog, k, st, stride).0.dy == st.0.dy,
        run_prefix(prog, k, st, stride).0.tail == st.0.tail,
        run_prefix(prog, k, st, stride).1.len() == st.1.len(),
    decreases k,
{
    if k > 0 {
        lemma_run_prefix_keeps_frame(prog, k - 1, st, stride);
    }
}

/// Runs the stages of `program` in order on `p` and the pixmap of `ctx`.
pub fn run_program(p: &mut Pipeline, program: &[Stage], ctx: &mut PixelsCtx)
    requires
        forall|j: int|
            0 <= j < program@.len() ==> stage_ready(
                #[trigger] program@[j],
                old(p).dx as int,
                old(p).dy as int,
                old(p).tail as int,
                old(ctx).stride as int,
                old(ctx).pixels@.len() as int,
            ),
    ensures
        final(ctx).stride == old(ctx).stride,
        final(ctx).pixels@.len() == old(ctx).pixels@.len(),
        (final(p)@, final(ctx).pixels@) == run(
            program@,
            (old(p)@, old(ctx).pixels@),
            old(ctx).stride as int,
        ),
{
    let ghost st0: State = (p@, ctx.pixels@);
    let ghost stride = ctx.stride as int;
    let mut i: usize = 0;
    while i < program.len()
        invariant
            0 <= i <= program@.len(),
            ctx.stride == old(ctx).stride,
            stride == ctx.stride,
            st0 == (old(p)@, old(ctx).pixels@),
            (p@, ctx.pixels@) == run_prefix(program@, i as int, st0, stride),
            forall|j: int|
                0 <= j < program@.len() ==> stage_ready(
                    #[trigger] program@[j],
                    st0.0.dx as int,
                    st0.0.dy as int,
                    st0.0.tail as int,
                    stride,
                    st0.1.len() as int,
                ),
        decreases program@.len() - i,
    {
        proof {
            lemma_run_prefix_keeps_frame(program@, i as int, st0, stride);
        }
        let ghost before: State = (p@, ctx.pixels@);
        match &program[i] {
            Stage::MoveSourceToDestination => move_source_to_destination(p),
            Stage::MoveDestinationToSource => move_destination_to_source(p),
            Stage::Premultiply => premultiply(p),
            Stage::UniformColor(c) => uniform_color(p, c),
            Stage::LoadDst => load_dst(p, ctx),
            Stage::LoadDstTail => load_dst_tail(p, ctx),
            Stage::Store => store(p, ctx),
            Stage::StoreTail => store_tail(p, ctx),
            Stage::ScaleU8(m) => scale_u8(p, m),
            Stage::LerpU8(m) => lerp_u8(p, m),
            Stage::Scale1Float(c) => scale_1_float(p, *c),
            Stage::Lerp1Float(c) => lerp_1_float(p, *c),
            Stage::Blend(mode) => blend(p, *mode),
            Stage::SourceOverRgba => source_over_rgba(p, ctx),
            Stage::SourceOverRgbaTail => source_over_rgba_tail(p, ctx),
        }
        assert((p@, ctx.pixels@) == step(program@[i as int], before, stride));
        i += 1;
    }
    proof {
        lemma_run_prefix_keeps_frame(program@, program@.len() as int, st0, stride);
    }
}

/// The registers with the position and the lane count set.
pub open spec fn placed(v: PipelineView, x: int, y: int, tail: int) -> PipelineView {
    PipelineView { dx: x as nat, dy: y as nat, tail: tail as nat, ..v }
}

/// Row `y` from column `x` to `end`: `prog` on each whole group of sixteen
/// pixels, then `tail_prog` on what is left, if anything.
pub open spec fn run_row(
    prog: Seq<Stage>,
    tail_prog: Seq<Stage>,
    st: State,
    stride: int,
    x: int,
    end: int,
    y: int,
) -> State
    decreases end - x,
{
    if x + 16 <= end {
        let next = run(prog, (placed(st.0, x, y, 16), st.1), stride);
        run_row(prog, tail_prog, next, stride, x + 16, end, y)
    } else if x < end {
        run(tail_prog, (placed(st.0, x, y, end - x), st.1), stride)
    } else {
        st
    }
}

/// The rows of `rect` from `y` down, each by `run_row`.
pub open spec fn run_rows(
    prog: Seq<Stage>,
    tail_prog: Seq<Stage>,
    st: State,
    stride: int,
    rect: ScreenIntRect,
    y: int,
) -> State
    decreases rect.spec_bottom() - y,
{
    if y < rect.spec_bottom() {
        let next = run_row(prog, tail_prog, st, stride, rect.x as int, rect.spec_right(), y);
        run_rows(prog, tail_prog, next, stride, rect, y + 1)
    } else {
        st
    }
}

/// Every mask that `prog` reads covers `rect`.
pub open spec fn masks_cover(prog: Seq<Stage>, rect: ScreenIntRect) -> bool {
    forall|j: int|
        0 <= j < prog.len() ==> match #[trigger] prog[j] {
            Stage::ScaleU8(m) | Stage::LerpU8(m) => m.offset(
                rect.spec_right(),
                rect.spec_bottom() - 1,
            ) <= m.data@.len(),
            _ => true,
        }
}

/// The pixmap covers `rect`.
pub open spec fn pixmap_covers(ctx: PixelsCtx, rect: ScreenIntRect) -> bool {
    ctx.offset(rect.spec_right(), rect.spec_bottom() - 1) <= ctx.pixels@.len()
}

proof fn lemma_mul_le(a: int, b: int, c: int)
    requires
        a >= 0,
        b <= c,
    ensures
        a * b <= a * c,
{
    assert(a * b <= a * c) by (nonlinear_arith)
        requires
            a >= 0,
            b <= c,
    ;
}

/// Every stage of a program is ready at a group of `tail` pixels inside a
/// rectangle that the pixmap and the program's masks cover.
proof fn lemma_ready_in_rect(
    prog: Seq<Stage>,
    rect: ScreenIntRect,
    stride: int,
    len: int,
    x: int,
    y: int,
    tail: int,
)
    requires
        masks_cover(prog, rect),
        stride >= 0,
        stride * (rect.spec_bottom() - 1) + rect.spec_right() <= len,
        rect.y <= y < rect.spec_bottom(),
        rect.x <= x,
        x + tail <= rect.spec_right(),
        1 <= tail <= 16,
        tail == 16 || forall|j: int| 0 <= j < prog.len() ==> is_tail_stage(#[trigger] prog[j]),
    ensures
        forall|j: int|
            0 <= j < prog.len() ==> stage_ready(#[trigger] prog[j], x, y, tail, stride, len),
{
    lemma_mul_le(stride, y, rect.spec_bottom() - 1);
    assert forall|j: int| 0 <= j < prog.len() implies stage_ready(
        #[trigger] prog[j],
        x,
        y,
        tail,
        stride,
        len,
    ) by {
        match prog[j] {
            Stage::ScaleU8(m) | Stage::LerpU8(m) => {
                lemma_mul_le(m.real_width as int, y, rect.spec_bottom() - 1);
            },
            _ => {},
        }
    }
}

/// Runs `program` on each whole group of sixteen pixels of each row of
/// `rect`, left to right and top to bottom, and `tail_program` on the
/// narrower group that ends a row, if any. One pipeline carries its
/// registers from one group to the next.
pub fn start(
    program: &[Stage],
    tail_program: &[Stage],
    rect: &ScreenIntRect,
    ctx: &mut PixelsCtx,
)
    requires
        rect.spec_right() <= 0x7FFF_FFFF,
        rect.spec_bottom() <= 0x7FFF_FFFF,
        rect.height > 0 ==> pixmap_covers(*old(ctx), *rect),
        rect.height > 0 ==> masks_cover(program@, *rect),
        rect.height > 0 ==> masks_cover(tail_program@, *rect),
        forall|j: int| 0 <= j < tail_program@.len() ==> is_tail_stage(#[trigger] tail_program@[j]),
    ensures
        final(ctx).stride == old(ctx).stride,
        final(ctx).pixels@ == run_rows(
            program@,
            tail_program@,
            (fresh_view(), old(ctx).pixels@),
            old(ctx).stride as int,
            *rect,
            rect.y as int,
        ).1,
{
    let ghost stride = ctx.stride as int;
    let ghost len = ctx.pixels@.len() as int;
    let ghost total = run_rows(
        program@,
        tail_program@,
        (fresh_view(), ctx.pixels@),
        stride,
        *rect,
        rect.y as int,
    );
    let mut p = Pipeline::new();
    let bottom = rect.y + rect.height;
    let right = rect.x + rect.width;
    let mut y: u32 = rect.y;
    while y < bottom
        invariant
            rect.y <= y <= bottom,
            bottom == rect.spec_bottom(),
            right == rect.spec_right(),
            right <= 0x7FFF_FFFF,
            ctx.stride == stride,
            ctx.pixels@.len() == len,
            rect.height > 0 ==> pixmap_covers(*ctx, *rect),
            rect.height > 0 ==> masks_cover(program@, *rect),
            rect.height > 0 ==> masks_cover(tail_program@, *rect),
            forall|j: int|
                0 <= j < tail_program@.len() ==> is_tail_stage(#[trigger] tail_program@[j]),
            total == run_rows(program@, tail_program@, (p@, ctx.pixels@), stride, *rect, y as int),
        decreases bottom - y,
    {
        let mut x: usize = rect.x as usize;
        let end: usize = right as usize;
        while x + STAGE_WIDTH <= end
            invariant
                rect.y <= y < bottom,
                bottom == rect.spec_bottom(),
                rect.x <= x <= end,
                end == rect.spec_right(),
                end <= 0x7FFF_FFFF,
                ctx.stride == stride,
                ctx.pixels@.len() == len,
                rect.height > 0,
                pixmap_covers(*ctx, *rect),
                masks_cover(program@, *rect),
                total == run_rows(
                    program@,
                    tail_program@,
                    run_row(
                        program@,
                        tail_program@,
                        (p@, ctx.pixels@),
                        stride,
                        x as int,
                        end as int,
                        y as int,
                    ),
                    stride,
                    *rect,
                    y + 1,
                ),
            decreases end - x,
        {
            p.dx = x;
            p.dy = y as usize;
            p.tail = STAGE_WIDTH;
            proof {
                lemma_ready_in_rect(program@, *rect, stride, len, x as int, y as int, 16);
            }
            run_program(&mut p, program, ctx);
            x += STAGE_WIDTH;
        }
        if x != end {
            p.dx = x;
            p.dy = y as usize;
            p.tail = end - x;
            proof {
                lemma_ready_in_rect(
                    tail_program@,
                    *rect,
                    stride,
                    len,
                    x as int,
                    y as int,
                    (end - x) as int,
                );
            }
            run_program(&mut p, tail_program, ctx);
        }
        y += 1;
    }
}

} // verus!
