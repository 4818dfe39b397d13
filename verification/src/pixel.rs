use vstd::prelude::*;

verus! {

/// One 4-channel 8-bit pixel. The engine treats the alpha channel as always
/// fully opaque (255): it never produces or consumes partial transparency.
#[derive(Clone, Copy, PartialEq, Eq, Structural, Debug)]
pub struct Px {
    pub r: u8,
    pub g: u8,
    pub b: u8,
    pub a: u8,
}

/// True when the pixel is fully opaque.
pub open spec fn px_opaque(p: Px) -> bool {
    p.a == 255
}

/// Total brightness of a pixel: the sum of its red, green and blue channels.
pub open spec fn px_brightness(p: Px) -> int {
    p.r + p.g + p.b
}

/// Linear interpolation of one channel from `c` toward `t` by a fixed-point
/// factor (`factor_raw` in 1/256ths, with 256 meaning full strength):
/// `(c * (1 - factor) + t * factor)`, truncated to an integer.
/// For `0 <= factor_raw <= 256` the result lies in `[0, 255]`.
pub open spec fn channel_lerp(c: u8, t: u8, factor_raw: int) -> int {
    (c * (256 - factor_raw) + t * factor_raw) / 256
}

/// One decay step of a channel from `c` toward `t` by a fixed-point
/// magnitude (`amount_raw` in 1/256ths). Because channels are whole numbers,
/// a step up adds the magnitude rounded down and a step down subtracts it
/// rounded up; the result never overshoots `t`.
pub open spec fn channel_move_towards(c: u8, t: u8, amount_raw: int) -> int {
    if amount_raw <= 0 {
        c as int
    } else if c < t {
        let stepped = c + amount_raw / 256;
        if stepped > t {
            t as int
        } else {
            stepped
        }
    } else if c > t {
        let stepped = c - (amount_raw + 255) / 256;
        if stepped < t {
            t as int
        } else {
            stepped
        }
    } else {
        c as int
    }
}

/// Pixel-level linear interpolation: each color channel interpolated from
/// `c` toward `t`, alpha forced to fully opaque.
pub open spec fn px_lerp(c: Px, t: Px, factor_raw: int) -> Px {
    Px {
        r: channel_lerp(c.r, t.r, factor_raw) as u8,
        g: channel_lerp(c.g, t.g, factor_raw) as u8,
        b: channel_lerp(c.b, t.b, factor_raw) as u8,
        a: 255,
    }
}

/// Pixel-level decay step: each color channel moved from `c` toward `t` by
/// the given magnitude, alpha forced to fully opaque.
pub open spec fn px_move_towards(c: Px, t: Px, amount_raw: int) -> Px {
    Px {
        r: channel_move_towards(c.r, t.r, amount_raw) as u8,
        g: channel_move_towards(c.g, t.g, amount_raw) as u8,
        b: channel_move_towards(c.b, t.b, amount_raw) as u8,
        a: 255,
    }
}

/// Additive compositing of a trail pixel over a live pixel: each color
/// channel is the sum of the two, clamped at 255; alpha is fully opaque.
pub open spec fn px_add_clamped(live: Px, trail: Px) -> Px {
    Px {
        r: if live.r + trail.r > 255 {
            255
        } else {
            (live.r + trail.r) as u8
        },
        g: if live.g + trail.g > 255 {
            255
        } else {
            (live.g + trail.g) as u8
        },
        b: if live.b + trail.b > 255 {
            255
        } else {
            (live.b + trail.b) as u8
        },
        a: 255,
    }
}

/// A channel interpolation with any factor in [0, 1] stays within [0, 255].
pub proof fn lemma_channel_lerp_in_range(c: u8, t: u8, factor_raw: int)
    requires
        0 <= factor_raw <= 256,
    ensures
        0 <= channel_lerp(c, t, factor_raw) <= 255,
{
    assert(c * (256 - factor_raw) + t * factor_raw <= 255 * 256) by (nonlinear_arith)
        requires
            0 <= factor_raw <= 256,
            c <= 255,
            t <= 255,
    ;
    assert(c * (256 - factor_raw) + t * factor_raw >= 0) by (nonlinear_arith)
        requires
            0 <= factor_raw <= 256,
    ;
}

/// A decay step never overshoots: the result stays between the starting
/// channel and the target channel.
pub proof fn lemma_channel_move_towards_bounds(c: u8, t: u8, amount_raw: int)
    ensures
        channel_move_towards(c, t, amount_raw) >= if c <= t {
            c as int
        } else {
            t as int
        },
        channel_move_towards(c, t, amount_raw) <= if c <= t {
            t as int
        } else {
            c as int
        },
{
}

} // verus!
