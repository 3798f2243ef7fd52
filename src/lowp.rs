//! The low-precision pipeline: colour lanes in 16-bit fixed point, where a
//! channel value of 255 stands for 1.0.
use vstd::prelude::*;

use crate::blend::{blend_alpha, blend_channel, blend_lane, BlendMode};
use crate::context::{write_row, MaskCtx, PixelsCtx, UniformColorCtx};
use crate::pixel::PremultipliedColorU8;
use crate::wide::{add16, mul16, sub16, u16x16};

verus! {

/// Number of pixels that one stage invocation processes.
pub const STAGE_WIDTH: usize = 16;

/// `(v + 255) / 256`, the fixed-point stand-in for `v / 255`.
pub open spec fn spec_div255(v: int) -> int {
    add16(v, 255) / 256
}

/// `255 - v`.
pub open spec fn spec_inv(v: int) -> int {
    sub16(255, v)
}

/// `div255(from * inv(t) + to * t)`.
pub open spec fn spec_lerp(from: int, to: int, t: int) -> int {
    spec_div255(add16(mul16(from, spec_inv(t)), mul16(to, t)))
}

/// Lane-wise `(v + 255) / 256`.
pub fn div255(v: u16x16) -> (r: u16x16)
    ensures
        forall|i: int| 0 <= i < 16 ==> r@[i] == spec_div255(v@[i] as int),
{
    v.add(&u16x16::splat(255)).div(&u16x16::splat(256))
}

/// Lane-wise `255 - v`.
pub fn inv(v: u16x16) -> (r: u16x16)
    ensures
        forall|i: int| 0 <= i < 16 ==> r@[i] == spec_inv(v@[i] as int),
{
    u16x16::splat(255).sub(&v)
}

/// Lane-wise blend from `from` to `to` by the weight `t` out of 255.
pub fn lerp(from: u16x16, to: u16x16, t: u16x16) -> (r: u16x16)
    ensures
        forall|i: int|
            0 <= i < 16 ==> r@[i] == spec_lerp(from@[i] as int, to@[i] as int, t@[i] as int),
{
    div255(from.mul(&inv(t)).add(&to.mul(&t)))
}

/// Splits sixteen pixels into four planes, one per channel.
pub fn load_8888(
    data: &[PremultipliedColorU8; STAGE_WIDTH],
    r: &mut u16x16,
    g: &mut u16x16,
    b: &mut u16x16,
    a: &mut u16x16,
)
    ensures
        forall|i: int|
            0 <= i < 16 ==> {
                &&& final(r)@[i] == data@[i].r
                &&& final(g)@[i] == data@[i].g
                &&& final(b)@[i] == data@[i].b
                &&& final(a)@[i] == data@[i].a
            },
{
    let mut rr = [0u16; 16];
    let mut gg = [0u16; 16];
    let mut bb = [0u16; 16];
    let mut aa = [0u16; 16];
    let mut i: usize = 0;
    while i < STAGE_WIDTH
        invariant
            0 <= i <= 16,
            forall|j: int|
                0 <= j < i ==> {
                    &&& rr@[j] == data@[j].r
                    &&& gg@[j] == data@[j].g
                    &&& bb@[j] == data@[j].b
                    &&& aa@[j] == data@[j].a
                },
        decreases 16 - i,
    {
        rr[i] = data[i].r as u16;
        gg[i] = data[i].g as u16;
        bb[i] = data[i].b as u16;
        aa[i] = data[i].a as u16;
        i += 1;
    }
    *r = u16x16(rr);
    *g = u16x16(gg);
    *b = u16x16(bb);
    *a = u16x16(aa);
}

/// The first `tail` pixels of `data`, padded with transparent pixels to
/// sixteen.
pub open spec fn padded(tail: int, data: Seq<PremultipliedColorU8>) -> Seq<PremultipliedColorU8> {
    Seq::new(
        16,
        |i: int|
            if i < tail {
                data[i]
            } else {
                PremultipliedColorU8 { r: 0, g: 0, b: 0, a: 0 }
            },
    )
}

/// Loads the first `tail` pixels of `data`; the lanes from `tail` on read as
/// transparent.
pub fn load_8888_tail(
    tail: usize,
    data: &[PremultipliedColorU8],
    r: &mut u16x16,
    g: &mut u16x16,
    b: &mut u16x16,
    a: &mut u16x16,
)
    requires
        1 <= tail <= STAGE_WIDTH,
        tail <= data@.len(),
    ensures
        forall|i: int|
            0 <= i < 16 ==> {
                &&& final(r)@[i] == padded(tail as int, data@)[i].r
                &&& final(g)@[i] == padded(tail as int, data@)[i].g
                &&& final(b)@[i] == padded(tail as int, data@)[i].b
                &&& final(a)@[i] == padded(tail as int, data@)[i].a
            },
{
    let mut tmp = [PremultipliedColorU8::transparent(); STAGE_WIDTH];
    let mut i: usize = 0;
    while i < tail
        invariant
            0 <= i <= tail <= 16,
            tail <= data@.len(),
            forall|j: int| 0 <= j < 16 ==> tmp@[j] == padded(i as int, data@)[j],
        decreases tail - i,
    {
        tmp[i] = data[i];
        i += 1;
    }
    load_8888(&tmp, r, g, b, a);
}

/// The pixel whose channels are the low bytes of four lane values.
pub open spec fn pack(r: u16, g: u16, b: u16, a: u16) -> PremultipliedColorU8 {
    PremultipliedColorU8 { r: r as u8, g: g as u8, b: b as u8, a: a as u8 }
}

/// The sixteen pixels that four planes pack into.
pub open spec fn packed(r: Seq<u16>, g: Seq<u16>, b: Seq<u16>, a: Seq<u16>) -> Seq<
    PremultipliedColorU8,
> {
    Seq::new(16, |i: int| pack(r[i], g[i], b[i], a[i]))
}

/// Packs four planes into sixteen pixels, keeping the low byte of each lane.
pub fn store_8888(
    r: &u16x16,
    g: &u16x16,
    b: &u16x16,
    a: &u16x16,
    data: &mut [PremultipliedColorU8; STAGE_WIDTH],
)
    ensures
        final(data)@ == packed(r@, g@, b@, a@),
{
    let mut i: usize = 0;
    while i < STAGE_WIDTH
        invariant
            0 <= i <= 16,
            forall|j: int| 0 <= j < i ==> data@[j] == pack(r@[j], g@[j], b@[j], a@[j]),
        decreases 16 - i,
    {
        data[i] = PremultipliedColorU8::from_rgba_unchecked(
            r.0[i] as u8,
            g.0[i] as u8,
            b.0[i] as u8,
            a.0[i] as u8,
        );
        i += 1;
    }
    assert(data@ =~= packed(r@, g@, b@, a@));
}

/// Packs the first `tail` lanes into the first `tail` pixels of `data`; the
/// rest of `data` is left as it was.
pub fn store_8888_tail(
    r: &u16x16,
    g: &u16x16,
    b: &u16x16,
    a: &u16x16,
    tail: usize,
    data: &mut [PremultipliedColorU8],
)
    requires
        1 <= tail <= STAGE_WIDTH,
        tail <= old(data)@.len(),
    ensures
        final(data)@.len() == old(data)@.len(),
        forall|i: int|
            0 <= i < old(data)@.len() ==> final(data)@[i] == if i < tail {
                packed(r@, g@, b@, a@)[i]
            } else {
                old(data)@[i]
            },
{
    let mut i: usize = 0;
    while i < tail
        invariant
            0 <= i <= tail <= 16,
            tail <= data@.len(),
            data@.len() == old(data)@.len(),
            forall|j: int|
                0 <= j < data@.len() ==> data@[j] == if j < i {
                    packed(r@, g@, b@, a@)[j]
                } else {
                    old(data)@[j]
                },
        decreases tail - i,
    {
        data[i] = PremultipliedColorU8::from_rgba_unchecked(
            r.0[i] as u8,
            g.0[i] as u8,
            b.0[i] as u8,
            a.0[i] as u8,
        );
        i += 1;
    }
}

/// The registers that stages share: source colour `r, g, b, a`, destination
/// colour `dr, dg, db, da`, the number of lanes in use, and the position of
/// the first pixel.
#[derive(Clone, Copy, Debug)]
pub struct Pipeline {
    pub r: u16x16,
    pub g: u16x16,
    pub b: u16x16,
    pub a: u16x16,
    pub dr: u16x16,
    pub dg: u16x16,
    pub db: u16x16,
    pub da: u16x16,
    pub tail: usize,
    pub dx: usize,
    pub dy: usize,
}

/// A pipeline's registers as sequences of lane values.
pub struct PipelineView {
    pub r: Seq<u16>,
    pub g: Seq<u16>,
    pub b: Seq<u16>,
    pub a: Seq<u16>,
    pub dr: Seq<u16>,
    pub dg: Seq<u16>,
    pub db: Seq<u16>,
    pub da: Seq<u16>,
    pub tail: nat,
    pub dx: nat,
    pub dy: nat,
}

impl View for Pipeline {
    type V = PipelineView;

    open spec fn view(&self) -> PipelineView {
        PipelineView {
            r: self.r@,
            g: self.g@,
            b: self.b@,
            a: self.a@,
            dr: self.dr@,
            dg: self.dg@,
            db: self.db@,
            da: self.da@,
            tail: self.tail as nat,
            dx: self.dx as nat,
            dy: self.dy as nat,
        }
    }
}

/// The registers of a fresh pipeline: every lane zero, at `(0, 0)`, no lane
/// in use.
pub open spec fn fresh_view() -> PipelineView {
    PipelineView {
        r: Seq::new(16, |i: int| 0u16),
        g: Seq::new(16, |i: int| 0u16),
        b: Seq::new(16, |i: int| 0u16),
        a: Seq::new(16, |i: int| 0u16),
        dr: Seq::new(16, |i: int| 0u16),
        dg: Seq::new(16, |i: int| 0u16),
        db: Seq::new(16, |i: int| 0u16),
        da: Seq::new(16, |i: int| 0u16),
        tail: 0,
        dx: 0,
        dy: 0,
    }
}

impl Pipeline {
    /// A pipeline with every lane zero, positioned at `(0, 0)` with no lane
    /// in use.
    pub fn new() -> (p: Pipeline)
        ensures
            p@ == fresh_view(),
    {
        let z = u16x16::splat(0);
        assert(z@ =~= Seq::new(16, |i: int| 0u16));
        Pipeline { r: z, g: z, b: z, a: z, dr: z, dg: z, db: z, da: z, tail: 0, dx: 0, dy: 0 }
    }
}

/// Sixteen lanes whose values `f` gives.
pub open spec fn lanes(f: spec_fn(int) -> int) -> Seq<u16> {
    Seq::new(16, |i: int| f(i) as u16)
}

/// `move_source_to_destination` on a view.
pub open spec fn moved_to_destination(v: PipelineView) -> PipelineView {
    PipelineView { dr: v.r, dg: v.g, db: v.b, da: v.a, ..v }
}

/// `move_destination_to_source` on a view.
pub open spec fn moved_to_source(v: PipelineView) -> PipelineView {
    PipelineView { r: v.dr, g: v.dg, b: v.db, a: v.da, ..v }
}

/// `premultiply` on a view.
pub open spec fn premultiplied(v: PipelineView) -> PipelineView {
    PipelineView {
        r: lanes(|i: int| spec_div255(mul16(v.r[i] as int, v.a[i] as int))),
        g: lanes(|i: int| spec_div255(mul16(v.g[i] as int, v.a[i] as int))),
        b: lanes(|i: int| spec_div255(mul16(v.b[i] as int, v.a[i] as int))),
        ..v
    }
}

/// `uniform_color` on a view.
pub open spec fn with_uniform(v: PipelineView, rgba: Seq<u16>) -> PipelineView {
    PipelineView {
        r: Seq::new(16, |i: int| rgba[0]),
        g: Seq::new(16, |i: int| rgba[1]),
        b: Seq::new(16, |i: int| rgba[2]),
        a: Seq::new(16, |i: int| rgba[3]),
        ..v
    }
}

/// Every source channel scaled by the coverage lanes `c`.
pub open spec fn scaled(v: PipelineView, c: Seq<u16>) -> PipelineView {
    PipelineView {
        r: lanes(|i: int| spec_div255(mul16(v.r[i] as int, c[i] as int))),
        g: lanes(|i: int| spec_div255(mul16(v.g[i] as int, c[i] as int))),
        b: lanes(|i: int| spec_div255(mul16(v.b[i] as int, c[i] as int))),
        a: lanes(|i: int| spec_div255(mul16(v.a[i] as int, c[i] as int))),
        ..v
    }
}

/// Every source channel blended from the destination towards the source by
/// the coverage lanes `c`.
pub open spec fn lerped(v: PipelineView, c: Seq<u16>) -> PipelineView {
    PipelineView {
        r: lanes(|i: int| spec_lerp(v.dr[i] as int, v.r[i] as int, c[i] as int)),
        g: lanes(|i: int| spec_lerp(v.dg[i] as int, v.g[i] as int, c[i] as int)),
        b: lanes(|i: int| spec_lerp(v.db[i] as int, v.b[i] as int, c[i] as int)),
        a: lanes(|i: int| spec_lerp(v.da[i] as int, v.a[i] as int, c[i] as int)),
        ..v
    }
}

/// The coverage lanes of a mask: its two bytes, then zeros.
pub open spec fn mask_lanes(ctx: MaskCtx, dx: int, dy: int, tail: int) -> Seq<u16> {
    Seq::new(16, |i: int| ctx.byte_at(dx, dy, tail, i) as u16)
}

/// The blend `mode` on a view.
pub open spec fn blended(mode: BlendMode, v: PipelineView) -> PipelineView {
    PipelineView {
        r: lanes(|i: int| blend_lane(mode, v.r[i] as int, v.dr[i] as int, v.a[i] as int, v.da[i] as int)),
        g: lanes(|i: int| blend_lane(mode, v.g[i] as int, v.dg[i] as int, v.a[i] as int, v.da[i] as int)),
        b: lanes(|i: int| blend_lane(mode, v.b[i] as int, v.db[i] as int, v.a[i] as int, v.da[i] as int)),
        a: lanes(|i: int| blend_alpha(mode, v.a[i] as int, v.da[i] as int)),
        ..v
    }
}

/// The destination registers loaded from sixteen pixels.
pub open spec fn with_dst(v: PipelineView, px: Seq<PremultipliedColorU8>) -> PipelineView {
    PipelineView {
        dr: Seq::new(16, |i: int| px[i].r as u16),
        dg: Seq::new(16, |i: int| px[i].g as u16),
        db: Seq::new(16, |i: int| px[i].b as u16),
        da: Seq::new(16, |i: int| px[i].a as u16),
        ..v
    }
}

/// The source registers packed into sixteen pixels.
pub open spec fn source_pixels(v: PipelineView) -> Seq<PremultipliedColorU8> {
    packed(v.r, v.g, v.b, v.a)
}

/// Copies the source registers into the destination registers.
pub fn move_source_to_destination(p: &mut Pipeline)
    ensures
        final(p)@ == moved_to_destination(old(p)@),
{
    p.dr = p.r;
    p.dg = p.g;
    p.db = p.b;
    p.da = p.a;
}

/// Copies the destination registers into the source registers.
pub fn move_destination_to_source(p: &mut Pipeline)
    ensures
        final(p)@ == moved_to_source(old(p)@),
{
    p.r = p.dr;
    p.g = p.dg;
    p.b = p.db;
    p.a = p.da;
}

/// Multiplies each source colour channel by the source alpha.
pub fn premultiply(p: &mut Pipeline)
    ensures
        final(p)@ == premultiplied(old(p)@),
{
    p.r = div255(p.r.mul(&p.a));
    p.g = div255(p.g.mul(&p.a));
    p.b = div255(p.b.mul(&p.a));
    assert(p@.r =~= premultiplied(old(p)@).r);
    assert(p@.g =~= premultiplied(old(p)@).g);
    assert(p@.b =~= premultiplied(old(p)@).b);
}

/// Sets every source lane to the context's colour.
pub fn uniform_color(p: &mut Pipeline, ctx: &UniformColorCtx)
    ensures
        final(p)@ == with_uniform(old(p)@, ctx.rgba@),
{
    p.r = u16x16::splat(ctx.rgba[0]);
    p.g = u16x16::splat(ctx.rgba[1]);
    p.b = u16x16::splat(ctx.rgba[2]);
    p.a = u16x16::splat(ctx.rgba[3]);
    assert(p@.r =~= with_uniform(old(p)@, ctx.rgba@).r);
    assert(p@.g =~= with_uniform(old(p)@, ctx.rgba@).g);
    assert(p@.b =~= with_uniform(old(p)@, ctx.rgba@).b);
    assert(p@.a =~= with_uniform(old(p)@, ctx.rgba@).a);
}

/// Scales the four source channels by the coverage lanes `c`.
fn scale_by(p: &mut Pipeline, c: &u16x16)
    ensures
        final(p)@ == scaled(old(p)@, c@),
{
    p.r = div255(p.r.mul(c));
    p.g = div255(p.g.mul(c));
    p.b = div255(p.b.mul(c));
    p.a = div255(p.a.mul(c));
    assert(p@.r =~= scaled(old(p)@, c@).r);
    assert(p@.g =~= scaled(old(p)@, c@).g);
    assert(p@.b =~= scaled(old(p)@, c@).b);
    assert(p@.a =~= scaled(old(p)@, c@).a);
}

/// Blends the four source channels from the destination by the coverage
/// lanes `c`.
fn lerp_by(p: &mut Pipeline, c: &u16x16)
    ensures
        final(p)@ == lerped(old(p)@, c@),
{
    p.r = lerp(p.dr, p.r, *c);
    p.g = lerp(p.dg, p.g, *c);
    p.b = lerp(p.db, p.b, *c);
    p.a = lerp(p.da, p.a, *c);
    assert(p@.r =~= lerped(old(p)@, c@).r);
    assert(p@.g =~= lerped(old(p)@, c@).g);
    assert(p@.b =~= lerped(old(p)@, c@).b);
    assert(p@.a =~= lerped(old(p)@, c@).a);
}

/// The mask's coverage at the pipeline's position, as lanes.
fn mask_coverage(p: &Pipeline, ctx: &MaskCtx) -> (c: u16x16)
    requires
        ctx.covers(p.dx as int, p.dy as int, p.tail as int),
    ensures
        c@ == mask_lanes(*ctx, p.dx as int, p.dy as int, p.tail as int),
{
    let data = ctx.copy_at_xy(p.dx, p.dy, p.tail);
    let c = u16x16([data[0] as u16, data[1] as u16, 0, 0, 0, 0, 0, 0, 0, 0, 0, 0, 0, 0, 0, 0]);
    assert(c@ =~= mask_lanes(*ctx, p.dx as int, p.dy as int, p.tail as int));
    c
}

/// Scales the source by the mask's coverage.
pub fn scale_u8(p: &mut Pipeline, ctx: &MaskCtx)
    requires
        ctx.covers(old(p).dx as int, old(p).dy as int, old(p).tail as int),
    ensures
        final(p)@ == scaled(
            old(p)@,
            mask_lanes(*ctx, old(p).dx as int, old(p).dy as int, old(p).tail as int),
        ),
{
    let c = mask_coverage(p, ctx);
    scale_by(p, &c);
}

/// Blends from the destination towards the source by the mask's coverage.
pub fn lerp_u8(p: &mut Pipeline, ctx: &MaskCtx)
    requires
        ctx.covers(old(p).dx as int, old(p).dy as int, old(p).tail as int),
    ensures
        final(p)@ == lerped(
            old(p)@,
            mask_lanes(*ctx, old(p).dx as int, old(p).dy as int, old(p).tail as int),
        ),
{
    let c = mask_coverage(p, ctx);
    lerp_by(p, &c);
}

/// Scales the source by one coverage value `c` out of 255 (the stage's
/// scalar, in fixed point).
pub fn scale_1_float(p: &mut Pipeline, c: u16)
    ensures
        final(p)@ == scaled(old(p)@, Seq::new(16, |i: int| c)),
{
    let cc = u16x16::splat(c);
    assert(cc@ =~= Seq::new(16, |i: int| c));
    scale_by(p, &cc);
}

/// Blends from the destination towards the source by one coverage value `c`
/// out of 255 (the stage's scalar, in fixed point).
pub fn lerp_1_float(p: &mut Pipeline, c: u16)
    ensures
        final(p)@ == lerped(old(p)@, Seq::new(16, |i: int| c)),
{
    let cc = u16x16::splat(c);
    assert(cc@ =~= Seq::new(16, |i: int| c));
    lerp_by(p, &cc);
}

/// Blends the source over the destination by `mode`, into the source
/// registers.
pub fn blend(p: &mut Pipeline, mode: BlendMode)
    ensures
        final(p)@ == blended(mode, old(p)@),
{
    let r = blend_channel(mode, &p.r, &p.dr, &p.a, &p.da);
    let g = blend_channel(mode, &p.g, &p.dg, &p.a, &p.da);
    let b = blend_channel(mode, &p.b, &p.db, &p.a, &p.da);
    let a = match mode {
        BlendMode::Darken | BlendMode::Lighten | BlendMode::Exclusion | BlendMode::Difference
        | BlendMode::HardLight | BlendMode::Overlay => blend_channel(
            BlendMode::SourceOver,
            &p.a,
            &p.da,
            &p.a,
            &p.da,
        ),
        _ => blend_channel(mode, &p.a, &p.da, &p.a, &p.da),
    };
    p.r = r;
    p.g = g;
    p.b = b;
    p.a = a;
    assert(p@.r =~= blended(mode, old(p)@).r);
    assert(p@.g =~= blended(mode, old(p)@).g);
    assert(p@.b =~= blended(mode, old(p)@).b);
    assert(p@.a =~= blended(mode, old(p)@).a);
}

/// Ends a program; changes nothing.
pub fn just_return(p: &mut Pipeline)
    ensures
        *final(p) == *old(p),
{
}

/// Stands for a stage that this pipeline does not compute; changes nothing.
pub fn null_fn(p: &mut Pipeline)
    ensures
        *final(p) == *old(p),
{
}

/// The pipeline's pixels lie in the pixmap: `n` of them from `(dx, dy)` on.
pub open spec fn fits(p: PipelineView, ctx: PixelsCtx, n: int) -> bool {
    ctx.offset(p.dx as int, p.dy as int) + n <= ctx.pixels@.len()
}

/// `load_dst_tail` on a view: the `tail` pixels at the pipeline's position,
/// padded with transparent lanes.
pub open spec fn loaded_tail(v: PipelineView, ctx: PixelsCtx) -> PipelineView {
    with_dst(v, padded(v.tail as int, ctx.window(v.dx as int, v.dy as int, v.tail as int)))
}

/// `store` on a view: the pixmap with the source written over the sixteen
/// pixels at the pipeline's position.
pub open spec fn stored(v: PipelineView, ctx: PixelsCtx, n: int) -> Seq<PremultipliedColorU8> {
    write_row(ctx.pixels@, ctx.offset(v.dx as int, v.dy as int), n, source_pixels(v))
}

/// Loads the sixteen pixels at the pipeline's position into the destination
/// registers.
pub fn load_dst(p: &mut Pipeline, ctx: &PixelsCtx)
    requires
        fits(old(p)@, *ctx, 16),
    ensures
        final(p)@ == with_dst(old(p)@, ctx.window(old(p).dx as int, old(p).dy as int, 16)),
{
    let data = ctx.slice16_at_xy(p.dx, p.dy);
    load_8888(&data, &mut p.dr, &mut p.dg, &mut p.db, &mut p.da);
    assert(p@.dr =~= with_dst(old(p)@, data@).dr);
    assert(p@.dg =~= with_dst(old(p)@, data@).dg);
    assert(p@.db =~= with_dst(old(p)@, data@).db);
    assert(p@.da =~= with_dst(old(p)@, data@).da);
}

/// Loads the `tail` pixels at the pipeline's position into the destination
/// registers; the lanes from `tail` on read as transparent.
pub fn load_dst_tail(p: &mut Pipeline, ctx: &PixelsCtx)
    requires
        1 <= old(p).tail <= STAGE_WIDTH,
        fits(old(p)@, *ctx, old(p).tail as int),
    ensures
        final(p)@ == loaded_tail(old(p)@, *ctx),
{
    let data = ctx.slice_at_xy(p.dx, p.dy, p.tail);
    load_8888_tail(p.tail, data.as_slice(), &mut p.dr, &mut p.dg, &mut p.db, &mut p.da);
    assert(p@.dr =~= loaded_tail(old(p)@, *ctx).dr);
    assert(p@.dg =~= loaded_tail(old(p)@, *ctx).dg);
    assert(p@.db =~= loaded_tail(old(p)@, *ctx).db);
    assert(p@.da =~= loaded_tail(old(p)@, *ctx).da);
}

/// Writes the source registers over the sixteen pixels at the pipeline's
/// position.
pub fn store(p: &Pipeline, ctx: &mut PixelsCtx)
    requires
        fits(p@, *old(ctx), 16),
    ensures
        final(ctx).stride == old(ctx).stride,
        final(ctx).pixels@ == stored(p@, *old(ctx), 16),
{
    let mut data = [PremultipliedColorU8::transparent(); STAGE_WIDTH];
    store_8888(&p.r, &p.g, &p.b, &p.a, &mut data);
    ctx.write_at_xy(p.dx, p.dy, data.as_slice());
}

/// Writes the first `tail` source lanes over the `tail` pixels at the
/// pipeline's position; no other pixel changes.
pub fn store_tail(p: &Pipeline, ctx: &mut PixelsCtx)
    requires
        1 <= p.tail <= STAGE_WIDTH,
        fits(p@, *old(ctx), p.tail as int),
    ensures
        final(ctx).stride == old(ctx).stride,
        final(ctx).pixels@ == stored(p@, *old(ctx), p.tail as int),
{
    let mut data = ctx.slice_at_xy(p.dx, p.dy, p.tail);
    store_8888_tail(&p.r, &p.g, &p.b, &p.a, p.tail, data.as_mut_slice());
    ctx.write_at_xy(p.dx, p.dy, data.as_slice());
    assert(ctx.pixels@ =~= stored(p@, *old(ctx), p.tail as int));
}

/// Source-over of the source registers onto the sixteen pixels at the
/// pipeline's position, in one stage: the pixels are loaded into the
/// destination registers, the result is left in the source registers and
/// written back.
pub fn source_over_rgba(p: &mut Pipeline, ctx: &mut PixelsCtx)
    requires
        fits(old(p)@, *old(ctx), 16),
    ensures
        final(p)@ == blended(
            BlendMode::SourceOver,
            with_dst(old(p)@, old(ctx).window(old(p).dx as int, old(p).dy as int, 16)),
        ),
        final(ctx).stride == old(ctx).stride,
        final(ctx).pixels@ == stored(final(p)@, *old(ctx), 16),
{
    load_dst(p, ctx);
    blend(p, BlendMode::SourceOver);
    store(p, ctx);
}

/// `source_over_rgba` on the `tail` pixels at the pipeline's position; no
/// other pixel changes.
pub fn source_over_rgba_tail(p: &mut Pipeline, ctx: &mut PixelsCtx)
    requires
        1 <= old(p).tail <= STAGE_WIDTH,
        fits(old(p)@, *old(ctx), old(p).tail as int),
    ensures
        final(p)@ == blended(BlendMode::SourceOver, loaded_tail(old(p)@, *old(ctx))),
        final(ctx).stride == old(ctx).stride,
        final(ctx).pixels@ == stored(final(p)@, *old(ctx), old(p).tail as int),
{
    load_dst_tail(p, ctx);
    blend(p, BlendMode::SourceOver);
    store_tail(p, ctx);
}

} // verus!
