use vstd::prelude::*;

use crate::fixed::Fixed;
use crate::frame::Frame;
use crate::frame::lemma_grid_index;
use crate::frame::same_dims;
use crate::pixel::Px;
use crate::pixel::channel_lerp;
use crate::pixel::channel_move_towards;
use crate::pixel::lemma_channel_lerp_in_range;
use crate::pixel::px_add_clamped;
use crate::pixel::px_lerp;
use crate::pixel::px_move_towards;
use crate::settings::EffectSettings;

verus! {

/// Absolute difference of two channel values.
pub open spec fn channel_diff(a: u8, b: u8) -> int {
    if a >= b {
        a - b
    } else {
        b - a
    }
}

/// The integer motion threshold derived from a sensitivity in [0, 1]:
/// 255 times the sensitivity, rounded to the nearest integer.
pub open spec fn motion_threshold_spec(percent_raw: int) -> int {
    (255 * percent_raw + 128) / 256
}

/// True when a pixel counts as in motion: the absolute difference on the
/// red, green or blue channel exceeds the threshold. Alpha is ignored.
pub open spec fn px_motion(cur: Px, prev: Px, threshold: int) -> bool {
    ||| channel_diff(cur.r, prev.r) > threshold
    ||| channel_diff(cur.g, prev.g) > threshold
    ||| channel_diff(cur.b, prev.b) > threshold
}

/// The boolean motion mask of a frame pair, one entry per pixel.
pub open spec fn mask_seq(cur: Seq<Px>, prev: Seq<Px>, threshold: int) -> Seq<bool> {
    Seq::new(cur.len(), |i: int| px_motion(cur[i], prev[i], threshold))
}

/// Pixel-wise selection between a moving-pixel source and the canvas:
/// where the mask flags motion the `over` pixel is kept, elsewhere the
/// canvas pixel shows through.
pub open spec fn composited(over: Seq<Px>, canvas: Seq<Px>, mask: Seq<bool>) -> Seq<Px> {
    Seq::new(over.len(), |i: int| if mask[i] {
        over[i]
    } else {
        canvas[i]
    })
}

/// The edge-corrected value of one pixel: an interior pixel (not on the
/// 1-pixel border) that is not flagged as motion but touches a 4-connected
/// motion pixel is replaced by the live pixel; every other pixel keeps its
/// composited value.
pub open spec fn edge_corrected_px(
    base: Seq<Px>,
    live: Seq<Px>,
    mask: Seq<bool>,
    w: int,
    h: int,
    i: int,
) -> Px {
    let x = i % w;
    let y = i / w;
    if 1 <= x < w - 1 && 1 <= y < h - 1 && !mask[i] && (mask[i - 1] || mask[i + 1] || mask[i - w]
        || mask[i + w]) {
        live[i]
    } else {
        base[i]
    }
}

/// The edge-correction pass over a whole frame, reading only uncorrected
/// values.
pub open spec fn edge_corrected(
    base: Seq<Px>,
    live: Seq<Px>,
    mask: Seq<bool>,
    w: int,
    h: int,
) -> Seq<Px> {
    Seq::new(base.len(), |i: int| edge_corrected_px(base, live, mask, w, h, i))
}

/// Row and column of a row-major index, with their ranges.
pub proof fn lemma_linear_coords(w: int, h: int, i: int)
    requires
        w > 0,
        h > 0,
        0 <= i < w * h,
    ensures
        0 <= i % w < w,
        0 <= i / w < h,
        i == (i / w) * w + (i % w),
{
    vstd::arithmetic::div_mod::lemma_fundamental_div_mod(i, w);
    vstd::arithmetic::div_mod::lemma_mod_division_less_than_divisor(i, w);
    vstd::arithmetic::div_mod::lemma_div_pos_is_pos(i, w);
    vstd::arithmetic::div_mod::lemma_multiply_divide_lt(i, w, h);
    vstd::arithmetic::mul::lemma_mul_is_commutative(w, i / w);
}

/// Linearly interpolates a `current` u8 value towards a `target` u8 value by a fixed `amount`.
pub fn move_towards(current: u8, target: u8, amount: Fixed) -> (r: u8)
    ensures
        r == channel_move_towards(current, target, amount.raw as int),
        current <= target ==> current <= r <= target,
        target <= current ==> target <= r <= current,
{
    if amount.raw == 0 {
        current
    } else if current < target {
        let stepped: u32 = current as u32 + amount.raw / 256;
        if stepped >= target as u32 {
            target
        } else {
            stepped as u8
        }
    } else if current > target {
        let magnitude: u64 = (amount.raw as u64 + 255) / 256;
        if current as u64 <= target as u64 + magnitude {
            target
        } else {
            (current as u64 - magnitude) as u8
        }
    } else {
        current
    }
}

/// Linear interpolation of one channel by a factor in [0, 1].
pub fn blend_channel(c: u8, t: u8, factor: Fixed) -> (r: u8)
    requires
        factor.is_unit_interval(),
    ensures
        r == channel_lerp(c, t, factor.raw as int),
{
    proof {
        lemma_channel_lerp_in_range(c, t, factor.raw as int);
        assert(c * (256 - factor.raw) + t * factor.raw <= 255 * 256) by (nonlinear_arith)
            requires
                c <= 255,
                t <= 255,
                0 <= factor.raw <= 256,
        ;
    }
    let mixed: u32 = c as u32 * (256 - factor.raw) + t as u32 * factor.raw;
    (mixed / 256) as u8
}

/// Pixel-level linear interpolation by a factor in [0, 1]; the produced
/// pixel is fully opaque.
pub(crate) fn blend_px(c: Px, t: Px, factor: Fixed) -> (r: Px)
    requires
        factor.is_unit_interval(),
    ensures
        r == px_lerp(c, t, factor.raw as int),
{
    Px {
        r: blend_channel(c.r, t.r, factor),
        g: blend_channel(c.g, t.g, factor),
        b: blend_channel(c.b, t.b, factor),
        a: 255,
    }
}

/// Pixel-level decay step toward a target pixel; the produced pixel is
/// fully opaque.
pub(crate) fn move_px(c: Px, t: Px, amount: Fixed) -> (r: Px)
    ensures
        r == px_move_towards(c, t, amount.raw as int),
{
    Px {
        r: move_towards(c.r, t.r, amount),
        g: move_towards(c.g, t.g, amount),
        b: move_towards(c.b, t.b, amount),
        a: 255,
    }
}

/// Additive compositing of a trail pixel over a live pixel, each channel
/// clamped at 255.
pub(crate) fn add_px(live: Px, trail: Px) -> (r: Px)
    ensures
        r == px_add_clamped(live, trail),
{
    let r_sum: u16 = live.r as u16 + trail.r as u16;
    let g_sum: u16 = live.g as u16 + trail.g as u16;
    let b_sum: u16 = live.b as u16 + trail.b as u16;
    Px {
        r: if r_sum > 255 {
            255
        } else {
            r_sum as u8
        },
        g: if g_sum > 255 {
            255
        } else {
            g_sum as u8
        },
        b: if b_sum > 255 {
            255
        } else {
            b_sum as u8
        },
        a: 255,
    }
}

/// The integer motion threshold of a sensitivity in [0, 1].
pub fn motion_threshold(percent: Fixed) -> (t: u8)
    requires
        percent.is_unit_interval(),
    ensures
        t == motion_threshold_spec(percent.raw as int),
        t <= 255,
{
    let scaled: u32 = (255 * percent.raw + 128) / 256;
    scaled as u8
}

/// Creates a motion mask by comparing the `current` and `prev` frames.
pub fn create_motion_mask(current: &Frame, prev: &Frame, threshold: i16) -> (mask: Vec<bool>)
    requires
        current.wf(),
        prev.wf(),
        same_dims(*current, *prev),
    ensures
        mask@ == mask_seq(current.pixels@, prev.pixels@, threshold as int),
{
    let n: usize = current.pixels.len();
    let mut mask: Vec<bool> = Vec::new();
    let mut i: usize = 0;
    while i < n
        invariant
            i <= n,
            n == current.pixels@.len(),
            n == prev.pixels@.len(),
            mask@.len() == i,
            forall|j: int|
                0 <= j < i ==> mask@[j] == px_motion(
                    current.pixels@[j],
                    prev.pixels@[j],
                    threshold as int,
                ),
        decreases n - i,
    {
        let cur_px: Px = current.pixels[i];
        let prev_px: Px = prev.pixels[i];
        let diff_r: i16 = if cur_px.r >= prev_px.r {
            (cur_px.r - prev_px.r) as i16
        } else {
            (prev_px.r - cur_px.r) as i16
        };
        let diff_g: i16 = if cur_px.g >= prev_px.g {
            (cur_px.g - prev_px.g) as i16
        } else {
            (prev_px.g - cur_px.g) as i16
        };
        let diff_b: i16 = if cur_px.b >= prev_px.b {
            (cur_px.b - prev_px.b) as i16
        } else {
            (prev_px.b - cur_px.b) as i16
        };
        mask.push(diff_r > threshold || diff_g > threshold || diff_b > threshold);
        i = i + 1;
    }
    assert(mask@ =~= mask_seq(current.pixels@, prev.pixels@, threshold as int));
    mask
}

/// Applies compositing and edge correction to the output frame: pixels not
/// flagged as motion take the canvas value, and, when edge correction is
/// enabled, interior halo pixels around motion take the live value instead.
pub fn apply_compositing_and_correction(
    output_frame: Frame,
    canvas: &Frame,
    current_frame: &Frame,
    motion_mask: &Vec<bool>,
    settings: &EffectSettings,
) -> (r: Frame)
    requires
        output_frame.wf(),
        canvas.wf(),
        current_frame.wf(),
        same_dims(output_frame, *canvas),
        same_dims(output_frame, *current_frame),
        motion_mask@.len() == output_frame.pixels@.len(),
    ensures
        r.wf(),
        same_dims(r, output_frame),
        r.pixels@ == if settings.use_edge_correction {
            edge_corrected(
                composited(output_frame.pixels@, canvas.pixels@, motion_mask@),
                current_frame.pixels@,
                motion_mask@,
                output_frame.width as int,
                output_frame.height as int,
            )
        } else {
            composited(output_frame.pixels@, canvas.pixels@, motion_mask@)
        },
{
    let w: usize = output_frame.width;
    let h: usize = output_frame.height;
    let n: usize = output_frame.pixels.len();
    let ghost base_spec = composited(output_frame.pixels@, canvas.pixels@, motion_mask@);

    let mut base: Vec<Px> = Vec::new();
    let mut i: usize = 0;
    while i < n
        invariant
            i <= n,
            n == output_frame.pixels@.len(),
            n == canvas.pixels@.len(),
            n == motion_mask@.len(),
            base_spec == composited(output_frame.pixels@, canvas.pixels@, motion_mask@),
            base@.len() == i,
            forall|j: int| 0 <= j < i ==> base@[j] == base_spec[j],
        decreases n - i,
    {
        if motion_mask[i] {
            base.push(output_frame.pixels[i]);
        } else {
            base.push(canvas.pixels[i]);
        }
        i = i + 1;
    }
    assert(base@ =~= base_spec);

    if !settings.use_edge_correction {
        return Frame { width: w, height: h, pixels: base };
    }

    let ghost corrected_spec = edge_corrected(
        base_spec,
        current_frame.pixels@,
        motion_mask@,
        w as int,
        h as int,
    );
    let mut corrected: Vec<Px> = Vec::new();
    let mut i: usize = 0;
    while i < n
        invariant
            i <= n,
            n == base@.len(),
            n == current_frame.pixels@.len(),
            n == motion_mask@.len(),
            n == w * h,
            base@ == base_spec,
            corrected_spec == edge_corrected(
                base_spec,
                current_frame.pixels@,
                motion_mask@,
                w as int,
                h as int,
            ),
            corrected@.len() == i,
            forall|j: int| 0 <= j < i ==> corrected@[j] == corrected_spec[j],
        decreases n - i,
    {
        proof {
            assert(w > 0 && h > 0) by (nonlinear_arith)
                requires
                    0 <= i < n,
                    n == w * h,
            ;
            lemma_linear_coords(w as int, h as int, i as int);
        }
        let x: usize = i % w;
        let y: usize = i / w;
        let interior: bool = 1 <= x && x + 1 < w && 1 <= y && y + 1 < h;
        let replace: bool = if interior && !motion_mask[i] {
            proof {
                lemma_grid_index(w as int, h as int, x as int, (y + 1) as int);
                assert(((y + 1) as int) * (w as int) + x == i + w) by (nonlinear_arith)
                    requires
                        i == (y as int) * (w as int) + x,
                ;
                assert(i + w < n);
                assert(i >= w) by (nonlinear_arith)
                    requires
                        i == (y as int) * (w as int) + x,
                        y >= 1,
                        x >= 0,
                        w > 0,
                ;
            }
            motion_mask[i - 1] || motion_mask[i + 1] || motion_mask[i - w] || motion_mask[i + w]
        } else {
            false
        };
        if replace {
            corrected.push(current_frame.pixels[i]);
        } else {
            corrected.push(base[i]);
        }
        i = i + 1;
    }
    assert(corrected@ =~= corrected_spec);
    Frame { width: w, height: h, pixels: corrected }
}

/// The chroma of an HSV color with saturation and value in fixed-point
/// [0, 1] units: their product, still in fixed-point units.
pub open spec fn hsv_chroma(s_raw: int, v_raw: int) -> int {
    v_raw * s_raw / 256
}

/// The secondary component of an HSV color: the chroma scaled by how far
/// the hue sits from the middle of its 120-degree double sector
/// (`1 - |((h / 60) mod 2) - 1|` in degrees; 60 degrees is 15360 raw
/// fixed-point units).
pub open spec fn hsv_secondary(h_raw: int, s_raw: int, v_raw: int) -> int {
    let offset = h_raw % 30720;
    let dist = if offset >= 15360 {
        offset - 15360
    } else {
        15360 - offset
    };
    hsv_chroma(s_raw, v_raw) * (15360 - dist) / 15360
}

/// A fixed-point color component plus the HSV match value, scaled to a
/// channel byte.
pub open spec fn hsv_byte(prime: int, m: int) -> int {
    (prime + m) * 255 / 256
}

/// The RGB channel bytes of an HSV color, by the standard six-sector hue
/// decomposition. The hue is a fixed-point angle in [0, 360) degrees
/// (15360 raw units per 60-degree sector); saturation and value are
/// fixed-point fractions in [0, 1].
pub open spec fn hsv_to_rgb_spec(h_raw: int, s_raw: int, v_raw: int) -> (int, int, int) {
    let c = hsv_chroma(s_raw, v_raw);
    let x = hsv_secondary(h_raw, s_raw, v_raw);
    let m = v_raw - c;
    if h_raw < 15360 {
        (hsv_byte(c, m), hsv_byte(x, m), hsv_byte(0, m))
    } else if h_raw < 30720 {
        (hsv_byte(x, m), hsv_byte(c, m), hsv_byte(0, m))
    } else if h_raw < 46080 {
        (hsv_byte(0, m), hsv_byte(c, m), hsv_byte(x, m))
    } else if h_raw < 61440 {
        (hsv_byte(0, m), hsv_byte(x, m), hsv_byte(c, m))
    } else if h_raw < 76800 {
        (hsv_byte(x, m), hsv_byte(0, m), hsv_byte(c, m))
    } else {
        (hsv_byte(c, m), hsv_byte(0, m), hsv_byte(x, m))
    }
}

/// One channel byte of an HSV color from its fixed-point component and
/// match value.
fn hsv_channel(prime: u32, m: u32) -> (b: u8)
    requires
        prime + m <= 256,
    ensures
        b == hsv_byte(prime as int, m as int),
{
    ((prime + m) * 255 / 256) as u8
}

/// Converts a color from HSV to RGB.
///
/// The hue is a fixed-point angle in degrees, below 360; saturation and
/// value are fixed-point fractions in [0, 1]. Uses the standard six-sector
/// hue decomposition.
pub fn hsv_to_rgb(h: Fixed, s: Fixed, v: Fixed) -> (rgb: (u8, u8, u8))
    requires
        h.raw < 92160,
        s.is_unit_interval(),
        v.is_unit_interval(),
    ensures
        rgb.0 == hsv_to_rgb_spec(h.raw as int, s.raw as int, v.raw as int).0,
        rgb.1 == hsv_to_rgb_spec(h.raw as int, s.raw as int, v.raw as int).1,
        rgb.2 == hsv_to_rgb_spec(h.raw as int, s.raw as int, v.raw as int).2,
{
    proof {
        assert(v.raw * s.raw <= 65536) by (nonlinear_arith)
            requires
                s.raw <= 256,
                v.raw <= 256,
        ;
        assert(v.raw * s.raw / 256 <= v.raw) by (nonlinear_arith)
            requires
                s.raw <= 256,
                0 <= v.raw,
        ;
    }
    let c: u32 = v.raw * s.raw / 256;
    let offset: u32 = h.raw % 30720;
    let dist: u32 = if offset >= 15360 {
        offset - 15360
    } else {
        15360 - offset
    };
    proof {
        assert(c * (15360 - dist) <= c * 15360) by (nonlinear_arith)
            requires
                0 <= c,
                0 <= dist <= 15360,
        ;
        assert(c * 15360 <= 256 * 15360) by (nonlinear_arith)
            requires
                0 <= c <= 256,
        ;
        assert(c * (15360 - dist) / 15360 <= c) by (nonlinear_arith)
            requires
                0 <= c,
                0 <= dist <= 15360,
        ;
    }
    let x: u32 = c * (15360 - dist) / 15360;
    let m: u32 = v.raw - c;
    if h.raw < 15360 {
        (hsv_channel(c, m), hsv_channel(x, m), hsv_channel(0, m))
    } else if h.raw < 30720 {
        (hsv_channel(x, m), hsv_channel(c, m), hsv_channel(0, m))
    } else if h.raw < 46080 {
        (hsv_channel(0, m), hsv_channel(c, m), hsv_channel(x, m))
    } else if h.raw < 61440 {
        (hsv_channel(0, m), hsv_channel(x, m), hsv_channel(c, m))
    } else if h.raw < 76800 {
        (hsv_channel(x, m), hsv_channel(0, m), hsv_channel(c, m))
    } else {
        (hsv_channel(c, m), hsv_channel(0, m), hsv_channel(x, m))
    }
}

/// Identical frames produce an all-false motion mask for any positive
/// threshold: no pixel differs from itself.
pub proof fn lemma_mask_identical_frames(cur: Seq<Px>, threshold: int)
    requires
        threshold > 0,
    ensures
        forall|i: int| 0 <= i < cur.len() ==> !(#[trigger] mask_seq(cur, cur, threshold)[i]),
{
}

/// A pixel whose red, green or blue channel differs maximally (0 against
/// 255) is flagged as motion for any threshold below 255.
pub proof fn lemma_mask_maximal_difference(cur: Seq<Px>, prev: Seq<Px>, threshold: int, i: int)
    requires
        threshold < 255,
        0 <= i < cur.len(),
        cur.len() == prev.len(),
        channel_diff(cur[i].r, prev[i].r) == 255 || channel_diff(cur[i].g, prev[i].g) == 255
            || channel_diff(cur[i].b, prev[i].b) == 255,
    ensures
        mask_seq(cur, prev, threshold)[i],
{
}

} // verus!
