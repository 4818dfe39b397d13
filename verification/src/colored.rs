use vstd::prelude::*;

use crate::fixed::Fixed;
use crate::frame::Frame;
use crate::frame::frame_opaque;
use crate::frame::same_dims;
use crate::pixel::Px;
use crate::pixel::px_add_clamped;
use crate::pixel::px_lerp;
use crate::pixel::px_move_towards;
use crate::pixel::px_opaque;
use crate::settings::CalculatedDecay;
use crate::settings::EffectSettings;
use crate::utils::add_px;
use crate::utils::blend_px;
use crate::utils::create_motion_mask;
use crate::utils::hsv_to_rgb;
use crate::utils::hsv_to_rgb_spec;
use crate::utils::mask_seq;
use crate::utils::motion_threshold;
use crate::utils::motion_threshold_spec;
use crate::utils::move_px;

verus! {

/// Configuration for the `Colored` effect.
#[derive(Clone, Copy, Debug)]
pub struct ColoredSettings {
    /// The static color of the trails if `rainbow_mode` is `false`.
    pub color: Px,
    /// If `true`, the trail color cycles through the rainbow.
    pub rainbow_mode: bool,
    /// The speed at which the rainbow color cycles, in degrees per stamped
    /// trail. Higher is faster.
    pub rainbow_speed: Fixed,
    /// The opacity of the stamped trail, in [0, 1].
    /// - 0 makes the trail completely transparent.
    /// - 1 makes the trail completely solid.
    pub tracer_opacity: Fixed,
    /// The duration a trail should last, in milliseconds, none for permanent.
    pub tracer_duration_ms: Option<u32>,
}

/// The color stamped onto the canvas for motion pixels: the configured
/// static color, or the fully saturated rainbow color of the current hue.
pub open spec fn trail_color_spec(cs: ColoredSettings, hue_raw: int) -> Px {
    if cs.rainbow_mode {
        let rgb = hsv_to_rgb_spec(hue_raw, 256, 256);
        Px { r: rgb.0 as u8, g: rgb.1 as u8, b: rgb.2 as u8, a: 255 }
    } else {
        cs.color
    }
}

/// The hue after one stamped rainbow trail: advanced by the configured
/// speed, wrapped modulo 360 degrees (92160 raw fixed-point units).
pub open spec fn advanced_hue(hue_raw: int, speed_raw: int) -> int {
    (hue_raw + speed_raw) % 92160
}

/// The canvas pixel after the continuous fade-to-black that runs on every
/// frame, gated or not.
pub open spec fn colored_decayed_px(c0: Px, decay_raw: int) -> Px {
    if decay_raw > 0 {
        px_move_towards(c0, Px { r: 0, g: 0, b: 0, a: 255 }, decay_raw)
    } else {
        c0
    }
}

/// The canvas pixel after one `Colored` update: the continuous
/// fade-to-black first, then, on a gated frame, the trail color
/// alpha-blended into every motion pixel at the configured opacity.
pub open spec fn colored_canvas_px(
    c0: Px,
    motion: bool,
    gate: bool,
    decay_raw: int,
    trail: Px,
    opacity_raw: int,
) -> Px {
    let d = colored_decayed_px(c0, decay_raw);
    if gate && motion {
        px_lerp(d, trail, opacity_raw)
    } else {
        d
    }
}

/// The whole canvas after one `Colored` update.
pub open spec fn colored_canvas_seq(
    c0: Seq<Px>,
    mask: Seq<bool>,
    gate: bool,
    decay_raw: int,
    trail: Px,
    opacity_raw: int,
) -> Seq<Px> {
    Seq::new(c0.len(), |i: int| colored_canvas_px(c0[i], mask[i], gate, decay_raw, trail, opacity_raw))
}

/// The `Colored` output: the canvas color added onto the current frame
/// per channel, clamped at 255 — an additive glow over the live video.
pub open spec fn colored_output_seq(cur: Seq<Px>, canvas1: Seq<Px>) -> Seq<Px> {
    Seq::new(cur.len(), |i: int| px_add_clamped(cur[i], canvas1[i]))
}

/// Processes a single frame for the `Colored` effect.
/// This effect creates a colored trail where motion is detected. The trail
/// can be a static color or a cycling rainbow. The opacity and duration of
/// the trail can be configured.
pub fn process_colored_frame(
    canvas: &mut Frame,
    current_frame: &Frame,
    prev_frame: &Frame,
    settings: &EffectSettings,
    decay: &CalculatedDecay,
    should_trail: bool,
    rainbow_hue: &mut Fixed,
) -> (output: Frame)
    requires
        old(canvas).wf(),
        current_frame.wf(),
        prev_frame.wf(),
        same_dims(*old(canvas), *current_frame),
        same_dims(*old(canvas), *prev_frame),
        settings.wf(),
        frame_opaque(*old(canvas)),
        frame_opaque(*current_frame),
        old(rainbow_hue).raw < 92160,
    ensures
        final(canvas).wf(),
        same_dims(*final(canvas), *old(canvas)),
        final(canvas).pixels@ == colored_canvas_seq(
            old(canvas).pixels@,
            mask_seq(
                current_frame.pixels@,
                prev_frame.pixels@,
                motion_threshold_spec(settings.motion_threshold_percent.raw as int),
            ),
            should_trail,
            decay.colored.raw as int,
            trail_color_spec(settings.colored, old(rainbow_hue).raw as int),
            settings.colored.tracer_opacity.raw as int,
        ),
        frame_opaque(*final(canvas)),
        final(rainbow_hue).raw == if should_trail && settings.colored.rainbow_mode {
            advanced_hue(old(rainbow_hue).raw as int, settings.colored.rainbow_speed.raw as int)
        } else {
            old(rainbow_hue).raw as int
        },
        final(rainbow_hue).raw < 92160,
        output.wf(),
        same_dims(output, *old(canvas)),
        output.pixels@ == colored_output_seq(current_frame.pixels@, final(canvas).pixels@),
        frame_opaque(output),
{
    let threshold: u8 = motion_threshold(settings.motion_threshold_percent);
    let motion_mask: Vec<bool> = create_motion_mask(current_frame, prev_frame, threshold as i16);

    // The trail color is taken from the hue before it advances.
    let trail_color: Px = if settings.colored.rainbow_mode {
        let rgb: (u8, u8, u8) = hsv_to_rgb(*rainbow_hue, Fixed::one(), Fixed::one());
        Px { r: rgb.0, g: rgb.1, b: rgb.2, a: 255 }
    } else {
        settings.colored.color
    };
    assert(trail_color == trail_color_spec(settings.colored, old(rainbow_hue).raw as int));

    if should_trail && settings.colored.rainbow_mode {
        let advanced: u64 = (rainbow_hue.raw as u64 + settings.colored.rainbow_speed.raw as u64)
            % 92160;
        *rainbow_hue = Fixed { raw: advanced as u32 };
    }

    let ghost canvas_spec = colored_canvas_seq(
        old(canvas).pixels@,
        motion_mask@,
        should_trail,
        decay.colored.raw as int,
        trail_color,
        settings.colored.tracer_opacity.raw as int,
    );

    let n: usize = canvas.pixels.len();
    let mut updated: Vec<Px> = Vec::new();
    let mut composed: Vec<Px> = Vec::new();
    let mut i: usize = 0;
    while i < n
        invariant
            i <= n,
            *canvas == *old(canvas),
            n == canvas.pixels@.len(),
            n == current_frame.pixels@.len(),
            n == motion_mask@.len(),
            settings.colored.tracer_opacity.is_unit_interval(),
            canvas_spec == colored_canvas_seq(
                old(canvas).pixels@,
                motion_mask@,
                should_trail,
                decay.colored.raw as int,
                trail_color,
                settings.colored.tracer_opacity.raw as int,
            ),
            updated@.len() == i,
            composed@.len() == i,
            forall|j: int| 0 <= j < i ==> updated@[j] == canvas_spec[j],
            forall|j: int|
                0 <= j < i ==> composed@[j] == px_add_clamped(
                    current_frame.pixels@[j],
                    canvas_spec[j],
                ),
        decreases n - i,
    {
        let canvas_px: Px = canvas.pixels[i];
        let current_px: Px = current_frame.pixels[i];

        // Decay the canvas pixel over time, toward black
        let faded: Px = if decay.colored.raw > 0 {
            move_px(canvas_px, Px { r: 0, g: 0, b: 0, a: 255 }, decay.colored)
        } else {
            canvas_px
        };

        // Add new trails in areas of motion
        let stamped: Px = if should_trail && motion_mask[i] {
            blend_px(faded, trail_color, settings.colored.tracer_opacity)
        } else {
            faded
        };
        updated.push(stamped);

        // Combine the canvas and the current frame to create the final output
        composed.push(add_px(current_px, stamped));
        i = i + 1;
    }
    canvas.pixels = updated;
    assert(canvas.pixels@ =~= canvas_spec);
    assert(composed@ =~= colored_output_seq(current_frame.pixels@, canvas_spec));
    proof {
        assert forall|i: int| 0 <= i < canvas.pixels@.len() implies px_opaque(
            #[trigger] canvas.pixels@[i],
        ) by {
            assert(px_opaque(old(canvas).pixels@[i]));
        }
    }
    Frame { width: canvas.width, height: canvas.height, pixels: composed }
}

} // verus!
