use vstd::prelude::*;

use crate::fixed::Fixed;
use crate::settings::CalculatedDecay;
use crate::settings::EffectSettings;

verus! {

/// The per-update decay magnitude, in fixed-point raw units, derived from
/// an optional fade duration in milliseconds and a fixed-point frame rate:
/// - no duration: 0 (the trail never decays);
/// - zero duration: 65280 raw, that is 255 whole steps (the trail decays
///   fully within a single update);
/// - frame rate below 1: 65280 raw as well, treated as instant to avoid a
///   division blow-up;
/// - otherwise 255 / ((duration / 1000) * frame_rate), the full channel
///   range spread evenly over the frames spanning the duration. In raw
///   units that is 255 * 256 * 256 * 1000 = 16711680000 divided by the
///   duration times the raw frame rate, rounded down.
pub open spec fn decay_spec(duration_ms: Option<u32>, frame_rate_raw: int) -> int {
    match duration_ms {
        Option::None => 0,
        Option::Some(ms) => if ms == 0 {
            65280
        } else if frame_rate_raw < 256 {
            65280
        } else {
            16711680000int / (ms * frame_rate_raw)
        },
    }
}

/// Converts a duration in milliseconds to a per-frame decay amount.
pub fn duration_ms_to_decay(duration_ms: Option<u32>, frame_rate: Fixed) -> (r: Fixed)
    ensures
        r.raw == decay_spec(duration_ms, frame_rate.raw as int),
{
    match duration_ms {
        Option::None => Fixed { raw: 0 },
        Option::Some(ms) => {
            if ms == 0 {
                Fixed { raw: 65280 }
            } else if frame_rate.raw < 256 {
                Fixed { raw: 65280 }
            } else {
                proof {
                    assert(ms * frame_rate.raw <= 0xffff_ffff * 0xffff_ffff) by (nonlinear_arith)
                        requires
                            ms <= 0xffff_ffff,
                            frame_rate.raw <= 0xffff_ffff,
                            0 <= ms,
                            0 <= frame_rate.raw,
                    ;
                    assert(256 <= ms * frame_rate.raw) by (nonlinear_arith)
                        requires
                            1 <= ms,
                            256 <= frame_rate.raw,
                    ;
                    vstd::arithmetic::div_mod::lemma_div_is_ordered_by_denominator(
                        16711680000,
                        256,
                        ms as int * frame_rate.raw as int,
                    );
                }
                let span: u64 = ms as u64 * frame_rate.raw as u64;
                let q: u64 = 16711680000u64 / span;
                Fixed { raw: q as u32 }
            }
        },
    }
}

/// The decay table of a run: one magnitude per effect, each derived from
/// that effect's configured fade duration and the stream's frame rate.
pub fn calculate_decay_table(settings: &EffectSettings, frame_rate: Fixed) -> (r: CalculatedDecay)
    ensures
        r.stable.raw == decay_spec(settings.stable.tracer_duration_ms, frame_rate.raw as int),
        r.blended.raw == decay_spec(settings.blended.tracer_duration_ms, frame_rate.raw as int),
        r.colored.raw == decay_spec(settings.colored.tracer_duration_ms, frame_rate.raw as int),
        r.priority.raw == decay_spec(settings.priority.tracer_duration_ms, frame_rate.raw as int),
{
    CalculatedDecay {
        stable: duration_ms_to_decay(settings.stable.tracer_duration_ms, frame_rate),
        blended: duration_ms_to_decay(settings.blended.tracer_duration_ms, frame_rate),
        colored: duration_ms_to_decay(settings.colored.tracer_duration_ms, frame_rate),
        priority: duration_ms_to_decay(settings.priority.tracer_duration_ms, frame_rate),
    }
}

} // verus!
