use vstd::prelude::*;

use crate::blended::blended_canvas_seq;
use crate::blended::blended_output_seq;
use crate::blended::process_blended_frame;
use crate::colored::advanced_hue;
use crate::colored::colored_canvas_seq;
use crate::colored::colored_output_seq;
use crate::colored::process_colored_frame;
use crate::colored::trail_color_spec;
use crate::fixed::Fixed;
use crate::frame::Frame;
use crate::frame::frame_opaque;
use crate::frame::same_dims;
use crate::pixel::Px;
use crate::pixel::px_opaque;
use crate::priority::priority_canvas_seq;
use crate::priority::process_priority_frame;
use crate::settings::CalculatedDecay;
use crate::settings::EffectMode;
use crate::settings::EffectSettings;
use crate::stable::process_stable_frame;
use crate::stable::stable_canvas_seq;
use crate::stable::stable_output_seq;
use crate::utils::mask_seq;
use crate::utils::motion_threshold_spec;

verus! {

/// The two failure classes of the engine. Every per-frame transform is
/// pure, so any failure is terminal for the run and propagates to the
/// driving loop.
#[derive(Clone, Copy, PartialEq, Eq, Structural, Debug)]
pub enum EffectError {
    /// The current frame, previous frame or canvas dimensions disagree.
    ShapeMismatch,
    /// A configured fraction lies outside [0, 1], or the cadence step is
    /// zero.
    InvalidConfig,
}

/// Checks a configuration once at setup, before any frame is processed:
/// every fraction must lie in [0, 1] and the cadence step must be at
/// least one frame.
pub fn validate_settings(settings: &EffectSettings) -> (r: Result<(), EffectError>)
    ensures
        r is Ok <==> settings.wf(),
        r is Err ==> r == Result::<(), EffectError>::Err(EffectError::InvalidConfig),
{
    if settings.motion_threshold_percent.raw <= 256 && settings.n_frames_step >= 1
        && settings.stable.burn_in_factor.raw <= 256 && settings.blended.blend_factor.raw <= 256
        && settings.colored.tracer_opacity.raw <= 256 {
        Ok(())
    } else {
        Err(EffectError::InvalidConfig)
    }
}

/// True exactly on the frames whose canvas-mutating update runs: the
/// frame index is positive and a whole multiple of the cadence step.
pub fn gate_for_frame(frame_index: usize, n_frames_step: usize) -> (gate: bool)
    requires
        n_frames_step >= 1,
    ensures
        gate == (frame_index > 0 && frame_index % n_frames_step == 0),
{
    frame_index > 0 && frame_index % n_frames_step == 0
}

/// The canvas for the first frame of a run: all-black opaque for the
/// `Colored` effect, a copy of the first decoded frame for every other
/// effect.
pub fn initial_canvas(mode: EffectMode, first_frame: &Frame) -> (r: Frame)
    requires
        first_frame.wf(),
        frame_opaque(*first_frame),
    ensures
        r.wf(),
        same_dims(r, *first_frame),
        frame_opaque(r),
        mode == EffectMode::Colored ==> forall|i: int|
            0 <= i < r.pixels@.len() ==> r.pixels@[i] == (Px { r: 0, g: 0, b: 0, a: 255 }),
        mode != EffectMode::Colored ==> r.pixels@ == first_frame.pixels@,
{
    if mode == EffectMode::Colored {
        let n: usize = first_frame.pixels.len();
        let mut pixels: Vec<Px> = Vec::new();
        let mut i: usize = 0;
        while i < n
            invariant
                i <= n,
                pixels@.len() == i,
                forall|j: int| 0 <= j < i ==> pixels@[j] == (Px { r: 0, g: 0, b: 0, a: 255 }),
            decreases n - i,
        {
            pixels.push(Px { r: 0, g: 0, b: 0, a: 255 });
            i = i + 1;
        }
        Frame { width: first_frame.width, height: first_frame.height, pixels }
    } else {
        first_frame.duplicate()
    }
}

/// Feeds one decoded frame to the active effect.
///
/// Fails fast with `ShapeMismatch` when the canvas, current-frame and
/// previous-frame dimensions disagree, leaving the canvas and hue
/// untouched; otherwise the selected effect updates the canvas (and, for
/// `Colored` in rainbow mode, the hue) and returns the output frame, as
/// each effect's own contract states.
pub fn process_frame(
    canvas: &mut Frame,
    current_frame: &Frame,
    prev_frame: &Frame,
    settings: &EffectSettings,
    decay: &CalculatedDecay,
    should_update_canvas: bool,
    rainbow_hue: &mut Fixed,
) -> (r: Result<Frame, EffectError>)
    requires
        old(canvas).wf(),
        current_frame.wf(),
        prev_frame.wf(),
        settings.wf(),
        frame_opaque(*old(canvas)),
        frame_opaque(*current_frame),
        old(rainbow_hue).raw < 92160,
    ensures
        !(same_dims(*old(canvas), *current_frame) && same_dims(*old(canvas), *prev_frame)) ==> {
            &&& r == Result::<Frame, EffectError>::Err(EffectError::ShapeMismatch)
            &&& *final(canvas) == *old(canvas)
            &&& *final(rainbow_hue) == *old(rainbow_hue)
        },
        same_dims(*old(canvas), *current_frame) && same_dims(*old(canvas), *prev_frame) ==> {
            &&& r is Ok
            &&& final(canvas).wf()
            &&& same_dims(*final(canvas), *old(canvas))
            &&& frame_opaque(*final(canvas))
            &&& r->Ok_0.wf()
            &&& same_dims(r->Ok_0, *old(canvas))
            &&& frame_opaque(r->Ok_0)
            &&& settings.mode == EffectMode::Stable ==> {
                &&& final(canvas).pixels@ == stable_canvas_seq(
                    old(canvas).pixels@,
                    current_frame.pixels@,
                    mask_seq(
                        current_frame.pixels@,
                        prev_frame.pixels@,
                        motion_threshold_spec(settings.motion_threshold_percent.raw as int),
                    ),
                    should_update_canvas,
                    settings.stable.burn_in_factor.raw as int,
                    decay.stable.raw as int,
                )
                &&& r->Ok_0.pixels@ == stable_output_seq(
                    final(canvas).pixels@,
                    current_frame.pixels@,
                    mask_seq(
                        current_frame.pixels@,
                        prev_frame.pixels@,
                        motion_threshold_spec(settings.motion_threshold_percent.raw as int),
                    ),
                    settings.use_edge_correction,
                    old(canvas).width as int,
                    old(canvas).height as int,
                )
            }
            &&& settings.mode == EffectMode::Blended ==> {
                &&& final(canvas).pixels@ == blended_canvas_seq(
                    old(canvas).pixels@,
                    current_frame.pixels@,
                    mask_seq(
                        current_frame.pixels@,
                        prev_frame.pixels@,
                        motion_threshold_spec(settings.motion_threshold_percent.raw as int),
                    ),
                    should_update_canvas,
                    decay.blended.raw as int,
                )
                &&& r->Ok_0.pixels@ == blended_output_seq(
                    final(canvas).pixels@,
                    current_frame.pixels@,
                    settings.blended.blend_factor.raw as int,
                )
            }
            &&& settings.mode == EffectMode::Colored ==> {
                &&& final(canvas).pixels@ == colored_canvas_seq(
                    old(canvas).pixels@,
                    mask_seq(
                        current_frame.pixels@,
                        prev_frame.pixels@,
                        motion_threshold_spec(settings.motion_threshold_percent.raw as int),
                    ),
                    should_update_canvas,
                    decay.colored.raw as int,
                    trail_color_spec(settings.colored, old(rainbow_hue).raw as int),
                    settings.colored.tracer_opacity.raw as int,
                )
                &&& r->Ok_0.pixels@ == colored_output_seq(
                    current_frame.pixels@,
                    final(canvas).pixels@,
                )
            }
            &&& settings.mode == EffectMode::Priority ==> {
                &&& final(canvas).pixels@ == priority_canvas_seq(
                    old(canvas).pixels@,
                    current_frame.pixels@,
                    should_update_canvas,
                    decay.priority.raw as int,
                    settings.priority.mode,
                )
                &&& r->Ok_0.pixels@ == final(canvas).pixels@
            }
            &&& final(rainbow_hue).raw == if settings.mode == EffectMode::Colored
                && should_update_canvas && settings.colored.rainbow_mode {
                advanced_hue(
                    old(rainbow_hue).raw as int,
                    settings.colored.rainbow_speed.raw as int,
                )
            } else {
                old(rainbow_hue).raw as int
            }
            &&& final(rainbow_hue).raw < 92160
        },
{
    let shapes_agree: bool = canvas.width == current_frame.width && canvas.height
        == current_frame.height && canvas.width == prev_frame.width && canvas.height
        == prev_frame.height;
    if !shapes_agree {
        return Err(EffectError::ShapeMismatch);
    }
    match settings.mode {
        EffectMode::Stable => Ok(
            process_stable_frame(
                canvas,
                current_frame,
                prev_frame,
                settings,
                decay,
                should_update_canvas,
            ),
        ),
        EffectMode::Blended => Ok(
            process_blended_frame(
                canvas,
                current_frame,
                prev_frame,
                settings,
                decay,
                should_update_canvas,
            ),
        ),
        EffectMode::Colored => Ok(
            process_colored_frame(
                canvas,
                current_frame,
                prev_frame,
                settings,
                decay,
                should_update_canvas,
                rainbow_hue,
            ),
        ),
        EffectMode::Priority => Ok(
            process_priority_frame(canvas, current_frame, settings, decay, should_update_canvas),
        ),
    }
}

} // verus!
