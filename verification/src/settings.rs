use vstd::prelude::*;

use crate::blended::BlendedSettings;
use crate::colored::ColoredSettings;
use crate::fixed::Fixed;
use crate::priority::PrioritySettings;
use crate::stable::StableSettings;

verus! {

/// The visual effects. Exactly one is active per run.
#[derive(Clone, Copy, PartialEq, Eq, Structural, Debug)]
pub enum EffectMode {
    /// A stable trail effect that burns the motion into the frame.
    Stable,
    /// A blended trail effect that creates a ghostly, semi-transparent trail.
    Blended,
    /// A colored trail effect that leaves a trail of a specific color or a rainbow.
    Colored,
    /// A priority-based effect that keeps the brightest or darkest pixels.
    Priority,
}

/// Holds all the settings.
#[derive(Clone, Copy, Debug)]
pub struct EffectSettings {
    pub mode: EffectMode,
    /// If `true`, the audio of the input video is copied to the output.
    /// Audio handling is outside the engine; the flag is only carried here.
    pub preserve_audio: bool,
    /// The sensitivity for detecting motion between frames, in [0, 1].
    /// A lower value means more sensitivity to motion.
    pub motion_threshold_percent: Fixed,
    /// If true, a correction pass is applied to reduce glowing edges on moving objects.
    pub use_edge_correction: bool,
    /// The number of frames to skip between trail updates. 1 applies the effect on every frame.
    pub n_frames_step: usize,

    pub stable: StableSettings,
    pub blended: BlendedSettings,
    pub colored: ColoredSettings,
    pub priority: PrioritySettings,
}

impl EffectSettings {
    /// A valid configuration: every fraction lies in [0, 1] and the cadence
    /// step is at least one frame.
    pub open spec fn wf(self) -> bool {
        &&& self.motion_threshold_percent.is_unit_interval()
        &&& self.n_frames_step >= 1
        &&& self.stable.burn_in_factor.is_unit_interval()
        &&& self.blended.blend_factor.is_unit_interval()
        &&& self.colored.tracer_opacity.is_unit_interval()
    }
}

/// The calculated per-frame decay magnitude for each effect, derived once
/// per run from each effect's configured fade duration and the stream's
/// frame rate; immutable for the run.
#[derive(Clone, Copy, Debug)]
pub struct CalculatedDecay {
    pub stable: Fixed,
    pub blended: Fixed,
    pub colored: Fixed,
    pub priority: Fixed,
}

} // verus!
