use vstd::prelude::*;

use crate::frame::Frame;
use crate::frame::frame_opaque;
use crate::frame::same_dims;
use crate::pixel::Px;
use crate::pixel::px_brightness;
use crate::pixel::px_move_towards;
use crate::pixel::px_opaque;
use crate::settings::CalculatedDecay;
use crate::settings::EffectSettings;
use crate::utils::move_px;

verus! {

/// The comparison rule for the `Priority` effect.
#[derive(Clone, Copy, PartialEq, Eq, Structural, Debug)]
pub enum PriorityMode {
    /// Keeps the brighter of the two pixels.
    Lightest,
    /// Keeps the darker of the two pixels.
    Darkest,
}

/// Configuration for the `Priority` effect.
#[derive(Clone, Copy, Debug)]
pub struct PrioritySettings {
    pub mode: PriorityMode,
    /// The duration a trail should last, in milliseconds, none for permanent.
    pub tracer_duration_ms: Option<u32>,
}

/// The canvas pixel after one `Priority` update: on a gated frame the
/// canvas pixel first decays toward the current pixel, then the brighter
/// (`Lightest`) or darker (`Darkest`) of the two is kept, ties retaining
/// the canvas value; on other frames the canvas pixel is unchanged.
pub open spec fn priority_canvas_px(
    c0: Px,
    cur: Px,
    gate: bool,
    decay_raw: int,
    mode: PriorityMode,
) -> Px {
    if gate {
        let d = if decay_raw > 0 {
            px_move_towards(c0, cur, decay_raw)
        } else {
            c0
        };
        match mode {
            PriorityMode::Lightest => if px_brightness(cur) > px_brightness(d) {
                cur
            } else {
                d
            },
            PriorityMode::Darkest => if px_brightness(cur) < px_brightness(d) {
                cur
            } else {
                d
            },
        }
    } else {
        c0
    }
}

/// The whole canvas after one `Priority` update.
pub open spec fn priority_canvas_seq(
    c0: Seq<Px>,
    cur: Seq<Px>,
    gate: bool,
    decay_raw: int,
    mode: PriorityMode,
) -> Seq<Px> {
    Seq::new(c0.len(), |i: int| priority_canvas_px(c0[i], cur[i], gate, decay_raw, mode))
}

/// Processes a single frame for the `Priority` effect.
/// This effect creates trails by comparing the brightness of the canvas
/// pixel and the current frame pixel, keeping either the lightest or the
/// darkest of the two. The output is the canvas itself.
pub fn process_priority_frame(
    canvas: &mut Frame,
    current_frame: &Frame,
    settings: &EffectSettings,
    decay: &CalculatedDecay,
    should_update_canvas: bool,
) -> (output: Frame)
    requires
        old(canvas).wf(),
        current_frame.wf(),
        same_dims(*old(canvas), *current_frame),
        frame_opaque(*old(canvas)),
        frame_opaque(*current_frame),
    ensures
        final(canvas).wf(),
        same_dims(*final(canvas), *old(canvas)),
        final(canvas).pixels@ == priority_canvas_seq(
            old(canvas).pixels@,
            current_frame.pixels@,
            should_update_canvas,
            decay.priority.raw as int,
            settings.priority.mode,
        ),
        frame_opaque(*final(canvas)),
        output.wf(),
        same_dims(output, *old(canvas)),
        output.pixels@ == final(canvas).pixels@,
        frame_opaque(output),
{
    let ghost canvas_spec = priority_canvas_seq(
        old(canvas).pixels@,
        current_frame.pixels@,
        should_update_canvas,
        decay.priority.raw as int,
        settings.priority.mode,
    );
    if should_update_canvas {
        let n: usize = canvas.pixels.len();
        let mut updated: Vec<Px> = Vec::new();
        let mut i: usize = 0;
        while i < n
            invariant
                i <= n,
                *canvas == *old(canvas),
                n == canvas.pixels@.len(),
                n == current_frame.pixels@.len(),
                canvas_spec == priority_canvas_seq(
                    old(canvas).pixels@,
                    current_frame.pixels@,
                    true,
                    decay.priority.raw as int,
                    settings.priority.mode,
                ),
                updated@.len() == i,
                forall|j: int| 0 <= j < i ==> updated@[j] == canvas_spec[j],
            decreases n - i,
        {
            let canvas_px: Px = canvas.pixels[i];
            let current_px: Px = current_frame.pixels[i];

            // Decay the canvas pixel towards the current frame pixel
            let decayed: Px = if decay.priority.raw > 0 {
                move_px(canvas_px, current_px, decay.priority)
            } else {
                canvas_px
            };

            // Apply the priority logic
            let canvas_brightness: u16 = decayed.r as u16 + decayed.g as u16 + decayed.b as u16;
            let current_brightness: u16 = current_px.r as u16 + current_px.g as u16
                + current_px.b as u16;

            let kept: Px = match settings.priority.mode {
                PriorityMode::Lightest => if current_brightness > canvas_brightness {
                    current_px
                } else {
                    decayed
                },
                PriorityMode::Darkest => if current_brightness < canvas_brightness {
                    current_px
                } else {
                    decayed
                },
            };
            updated.push(kept);
            i = i + 1;
        }
        canvas.pixels = updated;
        assert(canvas.pixels@ =~= canvas_spec);
    } else {
        assert(canvas.pixels@ =~= canvas_spec);
    }
    proof {
        assert forall|i: int| 0 <= i < canvas.pixels@.len() implies px_opaque(
            #[trigger] canvas.pixels@[i],
        ) by {
            assert(px_opaque(old(canvas).pixels@[i]));
            assert(px_opaque(current_frame.pixels@[i]));
        }
    }
    canvas.duplicate()
}

/// On a gated frame without decay, `Lightest` keeps the strictly brighter
/// current pixel and `Darkest` leaves the canvas pixel unchanged.
pub proof fn lemma_priority_brighter_current(c0: Px, cur: Px)
    requires
        px_brightness(cur) > px_brightness(c0),
    ensures
        priority_canvas_px(c0, cur, true, 0, PriorityMode::Lightest) == cur,
        priority_canvas_px(c0, cur, true, 0, PriorityMode::Darkest) == c0,
{
}

} // verus!
