use motion_trails::Fixed;
use motion_trails::Frame;
use motion_trails::Px;
use motion_trails::blended::BlendedSettings;
use motion_trails::blended::process_blended_frame;
use motion_trails::colored::ColoredSettings;
use motion_trails::colored::process_colored_frame;
use motion_trails::priority::PriorityMode;
use motion_trails::priority::PrioritySettings;
use motion_trails::priority::process_priority_frame;
use motion_trails::settings::CalculatedDecay;
use motion_trails::settings::EffectMode;
use motion_trails::settings::EffectSettings;
use motion_trails::stable::StableSettings;
use motion_trails::stable::process_stable_frame;

fn base_settings(mode: EffectMode) -> EffectSettings {
    EffectSettings {
        mode,
        preserve_audio: false,
        // 10% sensitivity: threshold 26
        motion_threshold_percent: Fixed { raw: 26 },
        use_edge_correction: false,
        n_frames_step: 1,
        stable: StableSettings {
            burn_in_factor: Fixed::one(),
            tracer_duration_ms: None,
        },
        blended: BlendedSettings {
            blend_factor: Fixed::zero(),
            tracer_duration_ms: None,
        },
        colored: ColoredSettings {
            color: Px { r: 255, g: 255, b: 255, a: 255 },
            rainbow_mode: false,
            rainbow_speed: Fixed::whole(5),
            tracer_opacity: Fixed::one(),
            tracer_duration_ms: None,
        },
        priority: PrioritySettings {
            mode: PriorityMode::Lightest,
            tracer_duration_ms: None,
        },
    }
}

fn no_decay() -> CalculatedDecay {
    CalculatedDecay {
        stable: Fixed::zero(),
        blended: Fixed::zero(),
        colored: Fixed::zero(),
        priority: Fixed::zero(),
    }
}

fn solid(width: usize, height: usize, r: u8, g: u8, b: u8) -> Frame {
    Frame::filled(width, height, Px { r, g, b, a: 255 }).unwrap()
}

#[test]
fn stable_full_burn_in_makes_canvas_equal_current() {
    let mut canvas = solid(2, 2, 10, 20, 30);
    let prev = solid(2, 2, 0, 0, 0);
    let current = solid(2, 2, 200, 150, 100);
    let settings = base_settings(EffectMode::Stable);
    let output = process_stable_frame(&mut canvas, &current, &prev, &settings, &no_decay(), true);
    for y in 0..2 {
        for x in 0..2 {
            assert_eq!(canvas.get_pixel(x, y), Px { r: 200, g: 150, b: 100, a: 255 });
            assert_eq!(output.get_pixel(x, y), Px { r: 200, g: 150, b: 100, a: 255 });
        }
    }
}

#[test]
fn stable_partial_burn_in_blends() {
    let mut canvas = solid(1, 1, 0, 0, 0);
    let prev = solid(1, 1, 0, 0, 0);
    let current = solid(1, 1, 200, 200, 200);
    let mut settings = base_settings(EffectMode::Stable);
    settings.stable.burn_in_factor = Fixed { raw: 128 }; // one half
    process_stable_frame(&mut canvas, &current, &prev, &settings, &no_decay(), true);
    // (0 * 128 + 200 * 128) / 256 = 100
    assert_eq!(canvas.get_pixel(0, 0), Px { r: 100, g: 100, b: 100, a: 255 });
}

#[test]
fn stable_static_areas_decay_toward_current() {
    let mut canvas = solid(1, 1, 100, 100, 100);
    let prev = solid(1, 1, 10, 10, 10);
    let current = solid(1, 1, 10, 10, 10); // no motion against prev
    let settings = base_settings(EffectMode::Stable);
    let decay = CalculatedDecay {
        stable: Fixed { raw: 2176 }, // 8.5: a step down subtracts 9
        blended: Fixed::zero(),
        colored: Fixed::zero(),
        priority: Fixed::zero(),
    };
    process_stable_frame(&mut canvas, &current, &prev, &settings, &decay, true);
    assert_eq!(canvas.get_pixel(0, 0), Px { r: 91, g: 91, b: 91, a: 255 });
}

#[test]
fn stable_ungated_frame_leaves_canvas_untouched() {
    let mut canvas = solid(1, 1, 7, 8, 9);
    let prev = solid(1, 1, 0, 0, 0);
    let current = solid(1, 1, 255, 255, 255);
    let settings = base_settings(EffectMode::Stable);
    let output = process_stable_frame(&mut canvas, &current, &prev, &settings, &no_decay(), false);
    assert_eq!(canvas.get_pixel(0, 0), Px { r: 7, g: 8, b: 9, a: 255 });
    // The pixel is in motion, so the output shows the current frame.
    assert_eq!(output.get_pixel(0, 0), Px { r: 255, g: 255, b: 255, a: 255 });
}

#[test]
fn stable_edge_correction_suppresses_halo() {
    // A lone moving pixel in the middle of a 5x5 grid: its 4-connected
    // interior neighbors are static but touch motion, so with correction
    // enabled they show the live frame instead of the canvas.
    let mut current = solid(5, 5, 0, 0, 0);
    current.pixels[2 * 5 + 2] = Px { r: 255, g: 255, b: 255, a: 255 };
    let prev = solid(5, 5, 0, 0, 0);
    let mut canvas = solid(5, 5, 0, 0, 200); // a blue canvas shows through
    let mut settings = base_settings(EffectMode::Stable);
    settings.use_edge_correction = true;
    let output = process_stable_frame(&mut canvas, &current, &prev, &settings, &no_decay(), false);

    // The moving pixel shows the live frame.
    assert_eq!(output.get_pixel(2, 2), Px { r: 255, g: 255, b: 255, a: 255 });
    // Its 4-connected neighbors are corrected to the live (black) frame.
    for (x, y) in [(1, 2), (3, 2), (2, 1), (2, 3)] {
        assert_eq!(output.get_pixel(x, y), Px { r: 0, g: 0, b: 0, a: 255 });
    }
    // Diagonal neighbors and far pixels keep the canvas value.
    for (x, y) in [(1, 1), (3, 3), (1, 3), (3, 1), (0, 0), (4, 4)] {
        assert_eq!(output.get_pixel(x, y), Px { r: 0, g: 0, b: 200, a: 255 });
    }
}

#[test]
fn stable_without_correction_keeps_halo() {
    let mut current = solid(5, 5, 0, 0, 0);
    current.pixels[2 * 5 + 2] = Px { r: 255, g: 255, b: 255, a: 255 };
    let prev = solid(5, 5, 0, 0, 0);
    let mut canvas = solid(5, 5, 0, 0, 200);
    let settings = base_settings(EffectMode::Stable);
    let output = process_stable_frame(&mut canvas, &current, &prev, &settings, &no_decay(), false);
    // Without correction the neighbors keep showing the canvas.
    for (x, y) in [(1, 2), (3, 2), (2, 1), (2, 3)] {
        assert_eq!(output.get_pixel(x, y), Px { r: 0, g: 0, b: 200, a: 255 });
    }
}

#[test]
fn blended_zero_blend_outputs_canvas_exactly() {
    let mut canvas = solid(2, 1, 40, 50, 60);
    let prev = solid(2, 1, 0, 0, 0);
    let current = solid(2, 1, 255, 1, 128);
    let settings = base_settings(EffectMode::Blended); // blend factor 0
    let output = process_blended_frame(&mut canvas, &current, &prev, &settings, &no_decay(), true);
    for x in 0..2 {
        assert_eq!(output.get_pixel(x, 0), Px { r: 40, g: 50, b: 60, a: 255 });
    }
}

#[test]
fn blended_half_blend_averages() {
    let mut canvas = solid(1, 1, 0, 0, 0);
    let prev = solid(1, 1, 255, 255, 255);
    let current = solid(1, 1, 255, 255, 255);
    let mut settings = base_settings(EffectMode::Blended);
    settings.blended.blend_factor = Fixed { raw: 128 };
    let output = process_blended_frame(&mut canvas, &current, &prev, &settings, &no_decay(), true);
    // (0 * 128 + 255 * 128) / 256 = 127 (truncated)
    assert_eq!(output.get_pixel(0, 0), Px { r: 127, g: 127, b: 127, a: 255 });
}

#[test]
fn blended_static_areas_clarify() {
    let mut canvas = solid(1, 1, 100, 100, 100);
    let prev = solid(1, 1, 10, 10, 10);
    let current = solid(1, 1, 10, 10, 10);
    let settings = base_settings(EffectMode::Blended);
    let decay = CalculatedDecay {
        stable: Fixed::zero(),
        blended: Fixed::whole(10),
        colored: Fixed::zero(),
        priority: Fixed::zero(),
    };
    process_blended_frame(&mut canvas, &current, &prev, &settings, &decay, true);
    assert_eq!(canvas.get_pixel(0, 0), Px { r: 90, g: 90, b: 90, a: 255 });
}

#[test]
fn priority_lightest_keeps_brighter_current() {
    // Canvas brightness 300 against current brightness 400: the current
    // pixel wins under Lightest.
    let mut canvas = solid(1, 1, 100, 100, 100);
    let current = solid(1, 1, 200, 100, 100);
    let settings = base_settings(EffectMode::Priority);
    let output = process_priority_frame(&mut canvas, &current, &settings, &no_decay(), true);
    assert_eq!(canvas.get_pixel(0, 0), Px { r: 200, g: 100, b: 100, a: 255 });
    assert_eq!(output.get_pixel(0, 0), Px { r: 200, g: 100, b: 100, a: 255 });
}

#[test]
fn priority_darkest_keeps_darker_canvas() {
    let mut canvas = solid(1, 1, 100, 100, 100);
    let current = solid(1, 1, 200, 100, 100);
    let mut settings = base_settings(EffectMode::Priority);
    settings.priority.mode = PriorityMode::Darkest;
    let output = process_priority_frame(&mut canvas, &current, &settings, &no_decay(), true);
    assert_eq!(canvas.get_pixel(0, 0), Px { r: 100, g: 100, b: 100, a: 255 });
    assert_eq!(output.get_pixel(0, 0), Px { r: 100, g: 100, b: 100, a: 255 });
}

#[test]
fn priority_ties_retain_canvas() {
    // Same brightness, different channels: the canvas value stays.
    let mut canvas = solid(1, 1, 100, 100, 100);
    let current = solid(1, 1, 150, 100, 50);
    let settings = base_settings(EffectMode::Priority);
    process_priority_frame(&mut canvas, &current, &settings, &no_decay(), true);
    assert_eq!(canvas.get_pixel(0, 0), Px { r: 100, g: 100, b: 100, a: 255 });
}

#[test]
fn priority_decays_before_comparing() {
    let mut canvas = solid(1, 1, 255, 255, 255);
    let current = solid(1, 1, 0, 0, 0);
    let settings = base_settings(EffectMode::Priority);
    let decay = CalculatedDecay {
        stable: Fixed::zero(),
        blended: Fixed::zero(),
        colored: Fixed::zero(),
        priority: Fixed::whole(55),
    };
    // After decaying toward black by 55 the canvas pixel (200,200,200) is
    // still brighter than the current pixel, so Lightest keeps it.
    process_priority_frame(&mut canvas, &current, &settings, &decay, true);
    assert_eq!(canvas.get_pixel(0, 0), Px { r: 200, g: 200, b: 200, a: 255 });
}

#[test]
fn priority_ungated_frame_leaves_canvas_untouched() {
    let mut canvas = solid(1, 1, 1, 2, 3);
    let current = solid(1, 1, 255, 255, 255);
    let settings = base_settings(EffectMode::Priority);
    let output = process_priority_frame(&mut canvas, &current, &settings, &no_decay(), false);
    assert_eq!(canvas.get_pixel(0, 0), Px { r: 1, g: 2, b: 3, a: 255 });
    assert_eq!(output.get_pixel(0, 0), Px { r: 1, g: 2, b: 3, a: 255 });
}

#[test]
fn colored_additive_output_clamps() {
    // Canvas channel 200 over current channel 100 clamps to 255, not 300.
    let mut canvas = solid(1, 1, 200, 10, 0);
    let mut hue = Fixed::zero();
    let prev = solid(1, 1, 100, 20, 0);
    let current = solid(1, 1, 100, 20, 0); // static: no stamping either way
    let settings = base_settings(EffectMode::Colored);
    let output = process_colored_frame(
        &mut canvas,
        &current,
        &prev,
        &settings,
        &no_decay(),
        false,
        &mut hue,
    );
    assert_eq!(output.get_pixel(0, 0), Px { r: 255, g: 30, b: 0, a: 255 });
}

#[test]
fn colored_white_square_end_to_end() {
    // An all-black opaque canvas, a white square on black as the current
    // frame, static trail color, full opacity, no decay, gated: pixels
    // under the square clamp to white; pixels outside stay black.
    let width = 4;
    let height = 4;
    let mut current = solid(width, height, 0, 0, 0);
    for y in 1..3 {
        for x in 1..3 {
            current.pixels[y * width + x] = Px { r: 255, g: 255, b: 255, a: 255 };
        }
    }
    let prev = solid(width, height, 0, 0, 0);
    let mut canvas = solid(width, height, 0, 0, 0);
    let mut hue = Fixed::zero();
    let mut settings = base_settings(EffectMode::Colored);
    settings.colored.color = Px { r: 40, g: 200, b: 90, a: 255 };
    let output = process_colored_frame(
        &mut canvas,
        &current,
        &prev,
        &settings,
        &no_decay(),
        true,
        &mut hue,
    );
    for y in 0..height {
        for x in 0..width {
            let inside = (1..3).contains(&x) && (1..3).contains(&y);
            if inside {
                // The canvas took the trail color at full opacity, and the
                // output is current (white) plus trail, clamped to 255.
                assert_eq!(canvas.get_pixel(x, y), Px { r: 40, g: 200, b: 90, a: 255 });
                assert_eq!(output.get_pixel(x, y), Px { r: 255, g: 255, b: 255, a: 255 });
            } else {
                // Unchanged black canvas plus black current: black.
                assert_eq!(canvas.get_pixel(x, y), Px { r: 0, g: 0, b: 0, a: 255 });
                assert_eq!(output.get_pixel(x, y), Px { r: 0, g: 0, b: 0, a: 255 });
            }
        }
    }
    // The hue only advances in rainbow mode.
    assert_eq!(hue.raw, 0);
}

#[test]
fn colored_canvas_fades_to_black_every_frame() {
    let mut canvas = solid(1, 1, 100, 50, 9);
    let prev = solid(1, 1, 0, 0, 0);
    let current = solid(1, 1, 0, 0, 0);
    let settings = base_settings(EffectMode::Colored);
    let decay = CalculatedDecay {
        stable: Fixed::zero(),
        blended: Fixed::zero(),
        colored: Fixed::whole(10),
        priority: Fixed::zero(),
    };
    let mut hue = Fixed::zero();
    // Even ungated, the colored canvas decays toward black.
    process_colored_frame(&mut canvas, &current, &prev, &settings, &decay, false, &mut hue);
    assert_eq!(canvas.get_pixel(0, 0), Px { r: 90, g: 40, b: 0, a: 255 });
}

#[test]
fn colored_rainbow_advances_and_wraps_hue() {
    let mut canvas = solid(1, 1, 0, 0, 0);
    let prev = solid(1, 1, 0, 0, 0);
    let current = solid(1, 1, 255, 255, 255); // all pixels moving
    let mut settings = base_settings(EffectMode::Colored);
    settings.colored.rainbow_mode = true;
    settings.colored.rainbow_speed = Fixed::whole(5);
    // 358 degrees: the stamped color comes from this hue, then the hue
    // wraps to 3 degrees.
    let mut hue = Fixed::whole(358);
    process_colored_frame(&mut canvas, &current, &prev, &settings, &no_decay(), true, &mut hue);
    assert_eq!(hue.raw, Fixed::whole(3).raw);
    // 358 degrees sits in the last sector, close to pure red.
    let px = canvas.get_pixel(0, 0);
    assert_eq!(px.r, 255);
    assert_eq!(px.g, 0);
    assert!(px.b < 12);
    assert_eq!(px.a, 255);
}

#[test]
fn colored_ungated_does_not_advance_hue() {
    let mut canvas = solid(1, 1, 0, 0, 0);
    let prev = solid(1, 1, 0, 0, 0);
    let current = solid(1, 1, 255, 255, 255);
    let mut settings = base_settings(EffectMode::Colored);
    settings.colored.rainbow_mode = true;
    let mut hue = Fixed::whole(10);
    process_colored_frame(&mut canvas, &current, &prev, &settings, &no_decay(), false, &mut hue);
    assert_eq!(hue.raw, Fixed::whole(10).raw);
    // No stamping either: the canvas stays black.
    assert_eq!(canvas.get_pixel(0, 0), Px { r: 0, g: 0, b: 0, a: 255 });
}

#[test]
fn colored_half_opacity_stamp() {
    let mut canvas = solid(1, 1, 0, 0, 0);
    let prev = solid(1, 1, 0, 0, 0);
    let current = solid(1, 1, 255, 255, 255);
    let mut settings = base_settings(EffectMode::Colored);
    settings.colored.color = Px { r: 200, g: 100, b: 50, a: 255 };
    settings.colored.tracer_opacity = Fixed { raw: 128 };
    let mut hue = Fixed::zero();
    process_colored_frame(&mut canvas, &current, &prev, &settings, &no_decay(), true, &mut hue);
    // (0 * 128 + c * 128) / 256 for each channel
    assert_eq!(canvas.get_pixel(0, 0), Px { r: 100, g: 50, b: 25, a: 255 });
}
