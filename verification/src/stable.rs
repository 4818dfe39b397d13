use vstd::prelude::*;

use crate::fixed::Fixed;
use crate::frame::Frame;
use crate::frame::frame_opaque;
use crate::frame::same_dims;
use crate::pixel::Px;
use crate::pixel::px_lerp;
use crate::pixel::px_move_towards;
use crate::pixel::px_opaque;
use crate::settings::CalculatedDecay;
use crate::settings::EffectSettings;
use crate::utils::apply_compositing_and_correction;
use crate::utils::blend_px;
use crate::utils::composited;
use crate::utils::create_motion_mask;
use crate::utils::edge_corrected;
use crate::utils::edge_corrected_px;
use crate::utils::mask_seq;
use crate::utils::motion_threshold;
use crate::utils::motion_threshold_spec;
use crate::utils::move_px;

verus! {

/// Configuration for the `Stable` effect.
#[derive(Clone, Copy, Debug)]
pub struct StableSettings {
    /// The opacity of new trails when they are stamped onto the canvas, in [0, 1].
    /// - 0 makes the trail completely transparent.
    /// - 1 makes the trail completely solid.
    pub burn_in_factor: Fixed,
    /// The duration a trail should last, in milliseconds, none for permanent.
    pub tracer_duration_ms: Option<u32>,
}

/// The canvas pixel after one `Stable` update: on a gated frame a motion
/// pixel is burned in (interpolated toward the current pixel by the
/// burn-in factor) and a static pixel decays toward the current pixel;
/// ungated frames leave the canvas untouched.
pub open spec fn stable_canvas_px(
    c0: Px,
    cur: Px,
    motion: bool,
    gate: bool,
    burn_raw: int,
    decay_raw: int,
) -> Px {
    if gate {
        if motion {
            px_lerp(c0, cur, burn_raw)
        } else if decay_raw > 0 {
            px_move_towards(c0, cur, decay_raw)
        } else {
            c0
        }
    } else {
        c0
    }
}

/// The whole canvas after one `Stable` update.
pub open spec fn stable_canvas_seq(
    c0: Seq<Px>,
    cur: Seq<Px>,
    mask: Seq<bool>,
    gate: bool,
    burn_raw: int,
    decay_raw: int,
) -> Seq<Px> {
    Seq::new(
        c0.len(),
        |i: int| stable_canvas_px(c0[i], cur[i], mask[i], gate, burn_raw, decay_raw),
    )
}

/// The `Stable` output: the current pixel where motion is flagged, the
/// canvas pixel elsewhere, then the edge-correction pass when it is
/// enabled.
pub open spec fn stable_output_seq(
    canvas1: Seq<Px>,
    cur: Seq<Px>,
    mask: Seq<bool>,
    use_correction: bool,
    w: int,
    h: int,
) -> Seq<Px> {
    let base = composited(cur, canvas1, mask);
    if use_correction {
        edge_corrected(base, cur, mask, w, h)
    } else {
        base
    }
}

/// Processes a single frame for the `Stable` effect.
/// This effect creates a stable trail by "burning in" motion into a
/// persistent canvas. The canvas gradually fades back to the current frame
/// in static areas.
pub fn process_stable_frame(
    canvas: &mut Frame,
    current_frame: &Frame,
    prev_frame: &Frame,
    settings: &EffectSettings,
    decay: &CalculatedDecay,
    should_update_canvas: bool,
) -> (output: Frame)
    requires
        old(canvas).wf(),
        current_frame.wf(),
        prev_frame.wf(),
        same_dims(*old(canvas), *current_frame),
        same_dims(*old(canvas), *prev_frame),
        settings.wf(),
        frame_opaque(*old(canvas)),
        frame_opaque(*current_frame),
    ensures
        final(canvas).wf(),
        same_dims(*final(canvas), *old(canvas)),
        final(canvas).pixels@ == stable_canvas_seq(
            old(canvas).pixels@,
            current_frame.pixels@,
            mask_seq(
                current_frame.pixels@,
                prev_frame.pixels@,
                motion_threshold_spec(settings.motion_threshold_percent.raw as int),
            ),
            should_update_canvas,
            settings.stable.burn_in_factor.raw as int,
            decay.stable.raw as int,
        ),
        frame_opaque(*final(canvas)),
        output.wf(),
        same_dims(output, *old(canvas)),
        output.pixels@ == stable_output_seq(
            final(canvas).pixels@,
            current_frame.pixels@,
            mask_seq(
                current_frame.pixels@,
                prev_frame.pixels@,
                motion_threshold_spec(settings.motion_threshold_percent.raw as int),
            ),
            settings.use_edge_correction,
            old(canvas).width as int,
            old(canvas).height as int,
        ),
        frame_opaque(output),
{
    let threshold: u8 = motion_threshold(settings.motion_threshold_percent);
    let motion_mask: Vec<bool> = create_motion_mask(current_frame, prev_frame, threshold as i16);
    let ghost canvas_spec = stable_canvas_seq(
        old(canvas).pixels@,
        current_frame.pixels@,
        motion_mask@,
        should_update_canvas,
        settings.stable.burn_in_factor.raw as int,
        decay.stable.raw as int,
    );

    if should_update_canvas {
        let n: usize = canvas.pixels.len();
        let mut updated: Vec<Px> = Vec::new();
        let mut i: usize = 0;
        while i < n
            invariant
                i <= n,
                *canvas == *old(canvas),
                n == canvas.pixels@.len(),
                n == current_frame.pixels@.len(),
                n == motion_mask@.len(),
                settings.stable.burn_in_factor.is_unit_interval(),
                canvas_spec == stable_canvas_seq(
                    old(canvas).pixels@,
                    current_frame.pixels@,
                    motion_mask@,
                    true,
                    settings.stable.burn_in_factor.raw as int,
                    decay.stable.raw as int,
                ),
                updated@.len() == i,
                forall|j: int| 0 <= j < i ==> updated@[j] == canvas_spec[j],
            decreases n - i,
        {
            let canvas_px: Px = canvas.pixels[i];
            let current_px: Px = current_frame.pixels[i];
            let burned: Px = if motion_mask[i] {
                // Blend for burn-in
                blend_px(canvas_px, current_px, settings.stable.burn_in_factor)
            } else if decay.stable.raw > 0 {
                // Decay the canvas towards the current frame in static areas
                move_px(canvas_px, current_px, decay.stable)
            } else {
                canvas_px
            };
            updated.push(burned);
            i = i + 1;
        }
        canvas.pixels = updated;
        assert(canvas.pixels@ =~= canvas_spec);
    } else {
        assert(canvas.pixels@ =~= canvas_spec);
    }
    proof {
        assert forall|i: int| 0 <= i < canvas.pixels@.len() implies px_opaque(
            #[trigger] canvas.pixels@[i],
        ) by {
            assert(px_opaque(old(canvas).pixels@[i]));
        }
    }

    let output: Frame = apply_compositing_and_correction(
        current_frame.duplicate(),
        canvas,
        current_frame,
        &motion_mask,
        settings,
    );
    proof {
        let ghost mask = motion_mask@;
        let ghost cur = current_frame.pixels@;
        let ghost base = composited(cur, canvas.pixels@, mask);
        assert forall|i: int| 0 <= i < output.pixels@.len() implies px_opaque(
            #[trigger] output.pixels@[i],
        ) by {
            assert(px_opaque(current_frame.pixels@[i]));
            assert(px_opaque(canvas.pixels@[i]));
            if settings.use_edge_correction {
                assert(output.pixels@[i] == edge_corrected_px(
                    base,
                    cur,
                    mask,
                    old(canvas).width as int,
                    old(canvas).height as int,
                    i,
                ));
            }
        }
    }
    output
}

/// A gated motion pixel with a full burn-in factor makes the canvas pixel
/// equal the current pixel exactly, whatever the decay magnitude.
pub proof fn lemma_stable_full_burn_in(c0: Px, cur: Px, decay_raw: int)
    requires
        px_opaque(cur),
    ensures
        stable_canvas_px(c0, cur, true, true, 256, decay_raw) == cur,
{
}

} // verus!
