use tiny_skia::blend::{blend_channel, BlendMode};
use tiny_skia::context::{MaskCtx, PixelsCtx, ScreenIntRect, UniformColorCtx};
use tiny_skia::lowp::{
    blend, div255, inv, lerp, lerp_1_float, lerp_u8, load_8888, load_8888_tail, load_dst,
    load_dst_tail, move_destination_to_source, move_source_to_destination, premultiply,
    scale_1_float, scale_u8, source_over_rgba, source_over_rgba_tail, store, store_8888,
    store_8888_tail, store_tail, uniform_color, Pipeline,
};
use tiny_skia::pixel::PremultipliedColorU8;
use tiny_skia::program::{run_program, start, Stage};
use tiny_skia::wide::u16x16;

const ALL_MODES: [BlendMode; 20] = [
    BlendMode::Clear,
    BlendMode::SourceAtop,
    BlendMode::DestinationAtop,
    BlendMode::SourceIn,
    BlendMode::DestinationIn,
    BlendMode::SourceOut,
    BlendMode::DestinationOut,
    BlendMode::SourceOver,
    BlendMode::DestinationOver,
    BlendMode::Modulate,
    BlendMode::Multiply,
    BlendMode::Screen,
    BlendMode::Xor,
    BlendMode::Plus,
    BlendMode::Darken,
    BlendMode::Lighten,
    BlendMode::Exclusion,
    BlendMode::Difference,
    BlendMode::HardLight,
    BlendMode::Overlay,
];

fn px(r: u8, g: u8, b: u8, a: u8) -> PremultipliedColorU8 {
    PremultipliedColorU8::from_rgba_unchecked(r, g, b, a)
}

fn d255(v: u32) -> u32 {
    (v + 255) / 256
}

/// The blend table on one channel, in plain integer arithmetic, for
/// premultiplied inputs where no intermediate leaves 16 bits.
fn reference(mode: BlendMode, s: u32, d: u32, sa: u32, da: u32) -> u32 {
    let (is, isa, ida) = (s as i64, sa as i64, da as i64);
    let id = d as i64;
    match mode {
        BlendMode::Clear => 0,
        BlendMode::SourceAtop => d255(s * da + d * (255 - sa)),
        BlendMode::DestinationAtop => d255(d * sa + s * (255 - da)),
        BlendMode::SourceIn => d255(s * da),
        BlendMode::DestinationIn => d255(d * sa),
        BlendMode::SourceOut => d255(s * (255 - da)),
        BlendMode::DestinationOut => d255(d * (255 - sa)),
        BlendMode::SourceOver => s + d255(d * (255 - sa)),
        BlendMode::DestinationOver => d + d255(s * (255 - da)),
        BlendMode::Modulate => d255(s * d),
        BlendMode::Multiply => d255(s * (255 - da) + d * (255 - sa) + s * d),
        BlendMode::Screen => s + d - d255(s * d),
        BlendMode::Xor => d255(s * (255 - da) + d * (255 - sa)),
        BlendMode::Plus => (s + d).min(255),
        BlendMode::Darken => s + d - d255((s * da).max(d * sa)),
        BlendMode::Lighten => s + d - d255((s * da).min(d * sa)),
        BlendMode::Exclusion => s + d - 2 * d255(s * d),
        BlendMode::Difference => s + d - 2 * d255((s * da).min(d * sa)),
        BlendMode::HardLight | BlendMode::Overlay => {
            let cond = if mode == BlendMode::HardLight { 2 * s <= sa } else { 2 * d <= da };
            let term = if cond {
                2 * is * id
            } else {
                isa * ida - 2 * (isa - is) * (ida - id)
            };
            d255((is * (255 - ida) + id * (255 - isa) + term) as u32)
        }
    }
}

fn is_color_only(mode: BlendMode) -> bool {
    matches!(
        mode,
        BlendMode::Darken
            | BlendMode::Lighten
            | BlendMode::Exclusion
            | BlendMode::Difference
            | BlendMode::HardLight
            | BlendMode::Overlay
    )
}

fn pipeline_with(src: [u16; 4], dst: [u16; 4]) -> Pipeline {
    let mut p = Pipeline::new();
    p.r = u16x16::splat(src[0]);
    p.g = u16x16::splat(src[1]);
    p.b = u16x16::splat(src[2]);
    p.a = u16x16::splat(src[3]);
    p.dr = u16x16::splat(dst[0]);
    p.dg = u16x16::splat(dst[1]);
    p.db = u16x16::splat(dst[2]);
    p.da = u16x16::splat(dst[3]);
    p.tail = 16;
    p
}

fn source_lane(p: &Pipeline, i: usize) -> [u16; 4] {
    [p.r.0[i], p.g.0[i], p.b.0[i], p.a.0[i]]
}

fn row(n: usize) -> Vec<PremultipliedColorU8> {
    (0..n).map(|i| px(i as u8, (2 * i) as u8, 100, 200)).collect()
}

#[test]
fn div255_exact_values() {
    let v = div255(u16x16([0, 1, 255, 256, 511, 512, 65025, 128 * 255, 1000, 0, 0, 0, 0, 0, 0, 0]));
    assert_eq!(&v.0[..9], &[0, 1, 1, 1, 2, 2, 255, 128, 4]);
}

#[test]
fn div255_of_times_255_is_identity() {
    for x in 0..=255u16 {
        assert_eq!(div255(u16x16::splat(x * 255)).0, [x; 16]);
    }
}

#[test]
fn inv_is_an_involution() {
    for x in [0u16, 1, 100, 254, 255, 256, 1000, 65535] {
        let once = inv(u16x16::splat(x));
        assert_eq!(once.0[0], 255u16.wrapping_sub(x));
        assert_eq!(inv(once).0, [x; 16]);
    }
}

#[test]
fn lerp_ends_and_middle() {
    for a in [0u16, 1, 77, 254, 255] {
        for b in [0u16, 3, 128, 255] {
            let (va, vb) = (u16x16::splat(a), u16x16::splat(b));
            assert_eq!(lerp(va, vb, u16x16::splat(0)).0, [a; 16]);
            assert_eq!(lerp(va, vb, u16x16::splat(255)).0, [b; 16]);
        }
    }
    // (0 * 127 + 255 * 128 + 255) / 256 == 128
    let mid = lerp(u16x16::splat(0), u16x16::splat(255), u16x16::splat(128));
    assert_eq!(mid.0[0], 128);
}

#[test]
fn lane_ops_wrap() {
    let a = u16x16::splat(65535);
    let b = u16x16::splat(2);
    assert_eq!(a.add(&b).0[0], 1);
    assert_eq!(b.sub(&a).0[0], 3);
    assert_eq!(a.mul(&b).0[0], 65534);
    assert_eq!(u16x16::splat(7).cmp_le(&u16x16::splat(7)).0[0], 0xFFFF);
    assert_eq!(u16x16::splat(8).cmp_le(&u16x16::splat(7)).0[0], 0);
}

#[test]
fn clear_gives_zero_pixels() {
    for (s, d) in [([255, 0, 0, 255], [0, 0, 255, 255]), ([10, 20, 30, 40], [200, 100, 50, 250])] {
        let mut p = pipeline_with(s, d);
        blend(&mut p, BlendMode::Clear);
        for i in 0..16 {
            assert_eq!(source_lane(&p, i), [0, 0, 0, 0]);
        }
    }
}

#[test]
fn source_over_opaque_and_transparent_source() {
    let mut p = pipeline_with([10, 20, 30, 255], [100, 150, 200, 250]);
    blend(&mut p, BlendMode::SourceOver);
    assert_eq!(source_lane(&p, 0), [10, 20, 30, 255]);

    let mut p = pipeline_with([0, 0, 0, 0], [100, 150, 200, 250]);
    blend(&mut p, BlendMode::SourceOver);
    assert_eq!(source_lane(&p, 5), [100, 150, 200, 250]);
}

#[test]
fn modulate_by_opaque_and_zero() {
    let x = u16x16::splat(123);
    let any = u16x16::splat(77);
    let one = blend_channel(BlendMode::Modulate, &x, &u16x16::splat(255), &any, &any);
    let zero = blend_channel(BlendMode::Modulate, &x, &u16x16::splat(0), &any, &any);
    assert_eq!(one.0, [123; 16]);
    assert_eq!(zero.0, [0; 16]);
}

#[test]
fn plus_saturates() {
    let mut p = pipeline_with([200, 100, 0, 255], [100, 100, 5, 255]);
    blend(&mut p, BlendMode::Plus);
    assert_eq!(source_lane(&p, 3), [255, 200, 5, 255]);
}

#[test]
fn zero_source_matches_reference_table() {
    for mode in ALL_MODES {
        for (d, sa, da) in [(0u32, 0u32, 0u32), (100, 0, 200), (100, 128, 100), (255, 255, 255), (37, 200, 90)] {
            let r = blend_channel(
                mode,
                &u16x16::splat(0),
                &u16x16::splat(d as u16),
                &u16x16::splat(sa as u16),
                &u16x16::splat(da as u16),
            );
            assert_eq!(r.0[0] as u32, reference(mode, 0, d, sa, da), "{:?} d={} sa={} da={}", mode, d, sa, da);
        }
    }
}

#[test]
fn every_mode_matches_reference_table() {
    let samples: [[u16; 4]; 6] = [
        [0, 0, 0, 0],
        [255, 0, 0, 255],
        [128, 0, 0, 128],
        [0, 0, 255, 255],
        [30, 60, 90, 120],
        [200, 10, 250, 250],
    ];
    for mode in ALL_MODES {
        for s in samples {
            for d in samples {
                let mut p = pipeline_with(s, d);
                blend(&mut p, mode);
                let got = source_lane(&p, 7);
                for c in 0..3 {
                    let want = reference(mode, s[c] as u32, d[c] as u32, s[3] as u32, d[3] as u32);
                    assert_eq!(got[c] as u32, want, "{:?} {:?} {:?} channel {}", mode, s, d, c);
                }
                let want_a = if is_color_only(mode) {
                    reference(BlendMode::SourceOver, s[3] as u32, d[3] as u32, s[3] as u32, d[3] as u32)
                } else {
                    reference(mode, s[3] as u32, d[3] as u32, s[3] as u32, d[3] as u32)
                };
                assert_eq!(got[3] as u32, want_a, "{:?} {:?} {:?} alpha", mode, s, d);
            }
        }
    }
}

#[test]
fn hard_light_and_overlay_values() {
    // s = 50, d = 200, sa = 255, da = 255: 2s <= sa, so 2 * s * d is added.
    let mut p = pipeline_with([50, 50, 50, 255], [200, 200, 200, 255]);
    blend(&mut p, BlendMode::HardLight);
    // div255(0 + 0 + 20000) == 79
    assert_eq!(source_lane(&p, 0), [79, 79, 79, 255]);

    // Overlay tests 2d <= da instead: 400 > 255, so sa*da - 2(sa-s)(da-d).
    let mut p = pipeline_with([50, 50, 50, 255], [200, 200, 200, 255]);
    blend(&mut p, BlendMode::Overlay);
    // 65025 - 2 * 205 * 55 == 42475; div255 == 166
    assert_eq!(source_lane(&p, 0), [166, 166, 166, 255]);
}

#[test]
fn opaque_red_over_opaque_blue() {
    let mut p = pipeline_with([255, 0, 0, 255], [0, 0, 255, 255]);
    blend(&mut p, BlendMode::SourceOver);
    for i in 0..16 {
        assert_eq!(source_lane(&p, i), [255, 0, 0, 255]);
    }
}

#[test]
fn half_alpha_red_over_opaque_blue() {
    let mut p = pipeline_with([128, 0, 0, 128], [0, 0, 255, 255]);
    blend(&mut p, BlendMode::SourceOver);
    assert_eq!(source_lane(&p, 0), [128, 0, 127, 255]);
}

#[test]
fn clear_over_any_dest_pixels() {
    let mut ctx = PixelsCtx { pixels: row(16), stride: 16 };
    let program = vec![
        Stage::LoadDst,
        Stage::Blend(BlendMode::Clear),
        Stage::Store,
    ];
    let mut p = Pipeline::new();
    p.tail = 16;
    run_program(&mut p, &program, &mut ctx);
    assert!(ctx.pixels.iter().all(|c| *c == px(0, 0, 0, 0)));
}

#[test]
fn tail_of_three_updates_three_pixels() {
    let before = row(16);
    let mut ctx = PixelsCtx { pixels: before.clone(), stride: 16 };
    let color = UniformColorCtx { rgba: [0, 0, 255, 255] };
    let program = vec![Stage::UniformColor(color), Stage::SourceOverRgbaTail];
    let mut p = Pipeline::new();
    p.tail = 3;
    run_program(&mut p, &program, &mut ctx);
    for i in 0..3 {
        assert_eq!(ctx.pixels[i], px(0, 0, 255, 255));
    }
    assert_eq!(&ctx.pixels[3..], &before[3..]);
}

#[test]
fn tail_stages_match_full_width_and_keep_the_rest() {
    let src = ([90u16, 10, 40, 120], [0u16, 0, 0, 0]);
    for tail in 1..=15usize {
        let before = row(40);
        let mut full = PixelsCtx { pixels: before.clone(), stride: 20 };
        let mut part = PixelsCtx { pixels: before.clone(), stride: 20 };
        let mut pf = pipeline_with(src.0, src.1);
        pf.dx = 3;
        pf.dy = 1;
        let mut pt = pf;
        pt.tail = tail;
        source_over_rgba(&mut pf, &mut full);
        source_over_rgba_tail(&mut pt, &mut part);
        let off = 20 + 3;
        for j in 0..40 {
            if j >= off && j < off + tail {
                assert_eq!(part.pixels[j], full.pixels[j]);
            } else {
                assert_eq!(part.pixels[j], before[j]);
            }
        }
        for i in 0..tail {
            assert_eq!(source_lane(&pt, i), source_lane(&pf, i));
        }

        let mut full = PixelsCtx { pixels: before.clone(), stride: 20 };
        let mut part = PixelsCtx { pixels: before.clone(), stride: 20 };
        store(&pf, &mut full);
        store_tail(&pt, &mut part);
        for j in 0..40 {
            if j >= off && j < off + tail {
                assert_eq!(part.pixels[j], full.pixels[j]);
            } else {
                assert_eq!(part.pixels[j], before[j]);
            }
        }

        let ctx = PixelsCtx { pixels: before.clone(), stride: 20 };
        let mut lf = pf;
        let mut lt = pt;
        load_dst(&mut lf, &ctx);
        load_dst_tail(&mut lt, &ctx);
        for i in 0..16 {
            let got = [lt.dr.0[i], lt.dg.0[i], lt.db.0[i], lt.da.0[i]];
            if i < tail {
                assert_eq!(got, [lf.dr.0[i], lf.dg.0[i], lf.db.0[i], lf.da.0[i]]);
            } else {
                assert_eq!(got, [0, 0, 0, 0]);
            }
        }
    }
}

#[test]
fn load_then_store_is_identity() {
    let mut data = [px(0, 0, 0, 0); 16];
    for (i, c) in data.iter_mut().enumerate() {
        *c = px(i as u8, 255 - i as u8, 3 * i as u8, 250);
    }
    let (mut r, mut g, mut b, mut a) = (u16x16::splat(9), u16x16::splat(9), u16x16::splat(9), u16x16::splat(9));
    load_8888(&data, &mut r, &mut g, &mut b, &mut a);
    assert_eq!(r.0[5], 5);
    assert_eq!(g.0[5], 250);
    let mut out = [px(1, 1, 1, 1); 16];
    store_8888(&r, &g, &b, &a, &mut out);
    assert_eq!(out, data);
}

#[test]
fn load_dst_move_store_leaves_pixmap_unchanged() {
    let before = row(32);
    let mut ctx = PixelsCtx { pixels: before.clone(), stride: 32 };
    let program = vec![Stage::LoadDst, Stage::MoveDestinationToSource, Stage::Store];
    let mut p = Pipeline::new();
    p.tail = 16;
    p.dx = 8;
    run_program(&mut p, &program, &mut ctx);
    assert_eq!(ctx.pixels, before);
}

#[test]
fn load_tail_pads_with_transparent() {
    let data = row(5);
    let (mut r, mut g, mut b, mut a) = (u16x16::splat(9), u16x16::splat(9), u16x16::splat(9), u16x16::splat(9));
    load_8888_tail(2, &data, &mut r, &mut g, &mut b, &mut a);
    assert_eq!(&r.0[..3], &[0, 1, 0]);
    assert_eq!(&g.0[..3], &[0, 2, 0]);
    assert_eq!(&a.0[..3], &[200, 200, 0]);
}

#[test]
fn store_keeps_low_byte() {
    let mut out = [px(7, 7, 7, 7); 16];
    let v = u16x16::splat(0x1234);
    store_8888(&v, &v, &v, &v, &mut out);
    assert_eq!(out[0], px(0x34, 0x34, 0x34, 0x34));
    let mut part = vec![px(7, 7, 7, 7); 4];
    store_8888_tail(&v, &v, &v, &v, 2, &mut part);
    assert_eq!(part, vec![px(0x34, 0x34, 0x34, 0x34), px(0x34, 0x34, 0x34, 0x34), px(7, 7, 7, 7), px(7, 7, 7, 7)]);
}

#[test]
fn move_and_premultiply() {
    let mut p = pipeline_with([255, 128, 0, 128], [1, 2, 3, 4]);
    move_source_to_destination(&mut p);
    assert_eq!([p.dr.0[0], p.dg.0[0], p.db.0[0], p.da.0[0]], [255, 128, 0, 128]);
    premultiply(&mut p);
    // div255(255 * 128) == 128, div255(128 * 128) == 64
    assert_eq!(source_lane(&p, 0), [128, 64, 0, 128]);
    p.dr = u16x16::splat(9);
    move_destination_to_source(&mut p);
    assert_eq!(source_lane(&p, 0), [9, 128, 0, 128]);
}

#[test]
fn uniform_color_fills_every_lane() {
    let mut p = Pipeline::new();
    uniform_color(&mut p, &UniformColorCtx { rgba: [1, 2, 3, 4] });
    for i in 0..16 {
        assert_eq!(source_lane(&p, i), [1, 2, 3, 4]);
    }
}

#[test]
fn mask_scales_first_two_lanes() {
    let mask = MaskCtx { data: vec![0, 0, 0, 255, 128, 77], real_width: 3 };
    assert_eq!(mask.copy_at_xy(0, 1, 16), [255, 128]);
    assert_eq!(mask.copy_at_xy(1, 1, 1), [128, 0]);

    let mut p = pipeline_with([200, 100, 50, 200], [0, 0, 0, 0]);
    p.dy = 1;
    scale_u8(&mut p, &mask);
    assert_eq!(source_lane(&p, 0), [200, 100, 50, 200]);
    // div255(200 * 128) == 100
    assert_eq!(source_lane(&p, 1), [100, 50, 25, 100]);
    assert_eq!(source_lane(&p, 2), [0, 0, 0, 0]);

    let mut p = pipeline_with([200, 100, 50, 200], [10, 20, 30, 40]);
    p.dy = 1;
    lerp_u8(&mut p, &mask);
    assert_eq!(source_lane(&p, 0), [200, 100, 50, 200]);
    assert_eq!(source_lane(&p, 5), [10, 20, 30, 40]);
}

#[test]
fn scalar_coverage_scale_and_lerp() {
    let mut p = pipeline_with([200, 100, 50, 200], [10, 20, 30, 40]);
    scale_1_float(&mut p, 128);
    assert_eq!(source_lane(&p, 9), [100, 50, 25, 100]);

    let mut p = pipeline_with([200, 100, 50, 200], [10, 20, 30, 40]);
    lerp_1_float(&mut p, 0);
    assert_eq!(source_lane(&p, 9), [10, 20, 30, 40]);
}

#[test]
fn start_walks_whole_groups_then_tail() {
    // A 40-pixel-wide pixmap of 3 rows; the rectangle covers columns 2..22
    // of rows 1 and 2: one group of sixteen and a tail of four per row.
    let before = row(120);
    let mut ctx = PixelsCtx { pixels: before.clone(), stride: 40 };
    let color = UniformColorCtx { rgba: [0, 0, 255, 255] };
    let program = vec![Stage::UniformColor(color), Stage::SourceOverRgba];
    let tail_program = vec![Stage::UniformColor(color), Stage::SourceOverRgbaTail];
    let rect = ScreenIntRect { x: 2, y: 1, width: 20, height: 2 };
    start(&program, &tail_program, &rect, &mut ctx);
    for y in 0..3 {
        for x in 0..40 {
            let j = y * 40 + x;
            if y >= 1 && (2..22).contains(&x) {
                assert_eq!(ctx.pixels[j], px(0, 0, 255, 255), "pixel ({}, {})", x, y);
            } else {
                assert_eq!(ctx.pixels[j], before[j], "pixel ({}, {})", x, y);
            }
        }
    }
}

#[test]
fn start_with_empty_rect_changes_nothing() {
    let before = row(20);
    let mut ctx = PixelsCtx { pixels: before.clone(), stride: 20 };
    let program = vec![Stage::Blend(BlendMode::Clear), Stage::Store];
    let rect = ScreenIntRect { x: 0, y: 0, width: 20, height: 0 };
    start(&program, &[], &rect, &mut ctx);
    assert_eq!(ctx.pixels, before);
}

#[test]
fn pixel_accessors() {
    let c = px(1, 2, 3, 4);
    assert_eq!((c.red(), c.green(), c.blue(), c.alpha()), (1, 2, 3, 4));
    assert_eq!(PremultipliedColorU8::transparent(), px(0, 0, 0, 0));
}

#[test]
fn source_over_keeps_premultiplied_values_in_range() {
    for sa in (0..=255u16).step_by(5) {
        for da in (0..=255u16).step_by(5) {
            for (s, d) in [(0, 0), (sa, da), (sa / 2, da / 3), (sa, 0), (0, da)] {
                let mut p = pipeline_with([s, s, s, sa], [d, d, d, da]);
                blend(&mut p, BlendMode::SourceOver);
                let out = source_lane(&p, 0);
                assert!(out[3] <= 255);
                assert!(out[0] <= out[3]);
                assert_eq!(out[0] as u32, s as u32 + d255(d as u32 * (255 - sa as u32)));
            }
        }
    }
}
