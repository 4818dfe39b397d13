use vstd::prelude::*;

use crate::fixed::Fixed;
use crate::frame::Frame;
use crate::frame::frame_opaque;
use crate::frame::same_dims;
use crate::pixel::Px;
use crate::pixel::px_lerp;
use crate::pixel::px_move_towards;
use crate::pixel::px_opaque;
use crate::settings::CalculatedDecay;
use crate::settings::EffectSettings;
use crate::utils::blend_px;
use crate::utils::create_motion_mask;
use crate::utils::mask_seq;
use crate::utils::motion_threshold;
use crate::utils::motion_threshold_spec;
use crate::utils::move_px;

verus! {

/// Configuration for the `Blended` effect.
#[derive(Clone, Copy, Debug)]
pub struct BlendedSettings {
    /// The blend factor for combining the canvas and the current frame, in [0, 1].
    /// - 0 makes the live action completely transparent (ghostly).
    /// - 1 makes the live action completely solid.
    pub blend_factor: Fixed,
    /// The duration it takes for a static background to fade in to full clarity,
    /// in milliseconds. If `None`, the background will not fade in.
    pub tracer_duration_ms: Option<u32>,
}

/// The canvas pixel after one `Blended` update: on a gated frame a static
/// pixel clarifies toward the current frame by the decay magnitude; moving
/// pixels and ungated frames leave the canvas untouched.
pub open spec fn blended_canvas_px(
    c0: Px,
    cur: Px,
    motion: bool,
    gate: bool,
    clarify_raw: int,
) -> Px {
    if gate && !motion && clarify_raw > 0 {
        px_move_towards(c0, cur, clarify_raw)
    } else {
        c0
    }
}

/// The whole canvas after one `Blended` update.
pub open spec fn blended_canvas_seq(
    c0: Seq<Px>,
    cur: Seq<Px>,
    mask: Seq<bool>,
    gate: bool,
    clarify_raw: int,
) -> Seq<Px> {
    Seq::new(c0.len(), |i: int| blended_canvas_px(c0[i], cur[i], mask[i], gate, clarify_raw))
}

/// The `Blended` output: every pixel is the canvas pixel interpolated
/// toward the current pixel by the blend factor, on every frame, gated or
/// not.
pub open spec fn blended_output_seq(canvas1: Seq<Px>, cur: Seq<Px>, blend_raw: int) -> Seq<Px> {
    Seq::new(canvas1.len(), |i: int| px_lerp(canvas1[i], cur[i], blend_raw))
}

/// Processes a single frame for the `Blended` effect.
/// This effect creates a ghostly, semi-transparent trail by blending the
/// current frame with a persistent canvas. The canvas gradually clarifies
/// in static areas, creating a fade-in effect for the background.
pub fn process_blended_frame(
    canvas: &mut Frame,
    current_frame: &Frame,
    prev_frame: &Frame,
    settings: &EffectSettings,
    decay: &CalculatedDecay,
    should_update_canvas: bool,
) -> (output: Frame)
    requires
        old(canvas).wf(),
        current_frame.wf(),
        prev_frame.wf(),
        same_dims(*old(canvas), *current_frame),
        same_dims(*old(canvas), *prev_frame),
        settings.wf(),
        frame_opaque(*old(canvas)),
        frame_opaque(*current_frame),
    ensures
        final(canvas).wf(),
        same_dims(*final(canvas), *old(canvas)),
        final(canvas).pixels@ == blended_canvas_seq(
            old(canvas).pixels@,
            current_frame.pixels@,
            mask_seq(
                current_frame.pixels@,
                prev_frame.pixels@,
                motion_threshold_spec(settings.motion_threshold_percent.raw as int),
            ),
            should_update_canvas,
            decay.blended.raw as int,
        ),
        frame_opaque(*final(canvas)),
        output.wf(),
        same_dims(output, *old(canvas)),
        output.pixels@ == blended_output_seq(
            final(canvas).pixels@,
            current_frame.pixels@,
            settings.blended.blend_factor.raw as int,
        ),
        frame_opaque(output),
{
    let threshold: u8 = motion_threshold(settings.motion_threshold_percent);
    let motion_mask: Vec<bool> = create_motion_mask(current_frame, prev_frame, threshold as i16);
    let ghost canvas_spec = blended_canvas_seq(
        old(canvas).pixels@,
        current_frame.pixels@,
        motion_mask@,
        should_update_canvas,
        decay.blended.raw as int,
    );

    let n: usize = canvas.pixels.len();
    let mut updated: Vec<Px> = Vec::new();
    let mut blended: Vec<Px> = Vec::new();
    let mut i: usize = 0;
    while i < n
        invariant
            i <= n,
            *canvas == *old(canvas),
            n == canvas.pixels@.len(),
            n == current_frame.pixels@.len(),
            n == motion_mask@.len(),
            settings.blended.blend_factor.is_unit_interval(),
            canvas_spec == blended_canvas_seq(
                old(canvas).pixels@,
                current_frame.pixels@,
                motion_mask@,
                should_update_canvas,
                decay.blended.raw as int,
            ),
            updated@.len() == i,
            blended@.len() == i,
            forall|j: int| 0 <= j < i ==> updated@[j] == canvas_spec[j],
            forall|j: int|
                0 <= j < i ==> blended@[j] == px_lerp(
                    canvas_spec[j],
                    current_frame.pixels@[j],
                    settings.blended.blend_factor.raw as int,
                ),
        decreases n - i,
    {
        let canvas_px: Px = canvas.pixels[i];
        let current_px: Px = current_frame.pixels[i];

        let clarified: Px = if should_update_canvas && !motion_mask[i] && decay.blended.raw > 0 {
            move_px(canvas_px, current_px, decay.blended)
        } else {
            canvas_px
        };
        updated.push(clarified);

        // Blend the canvas and the current frame to create the final output
        blended.push(blend_px(clarified, current_px, settings.blended.blend_factor));
        i = i + 1;
    }
    canvas.pixels = updated;
    assert(canvas.pixels@ =~= canvas_spec);
    assert(blended@ =~= blended_output_seq(
        canvas_spec,
        current_frame.pixels@,
        settings.blended.blend_factor.raw as int,
    ));
    proof {
        assert forall|i: int| 0 <= i < canvas.pixels@.len() implies px_opaque(
            #[trigger] canvas.pixels@[i],
        ) by {
            assert(px_opaque(old(canvas).pixels@[i]));
        }
    }
    Frame { width: canvas.width, height: canvas.height, pixels: blended }
}

/// With a blend factor of zero the `Blended` output equals the canvas
/// exactly, for every pixel, regardless of the current frame's content.
pub proof fn lemma_blended_identity(canvas1: Seq<Px>, cur: Seq<Px>)
    requires
        cur.len() == canvas1.len(),
        forall|i: int| 0 <= i < canvas1.len() ==> px_opaque(#[trigger] canvas1[i]),
    ensures
        blended_output_seq(canvas1, cur, 0) == canvas1,
{
    assert forall|i: int| 0 <= i < canvas1.len() implies blended_output_seq(canvas1, cur, 0)[i]
        == canvas1[i] by {
        assert(px_opaque(canvas1[i]));
    }
    assert(blended_output_seq(canvas1, cur, 0) =~= canvas1);
}

} // verus!
