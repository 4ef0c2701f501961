//! RGB radiance values and the conversion to display pixels.

use vstd::prelude::*;

use crate::fixed::{max_int, min_int, s_sqrt, Fx, fx_clamp, fx_sqrt};
use crate::vector::{Vec3};

verus! {

/// A linear RGB radiance triple; shares `Vec3`'s representation.
pub type Color3 = Vec3;

/// The highest channel value that still encodes below 255.
pub const FX_COLOR_CLAMP: i64 = 65529;

pub fn color3(r: Fx, g: Fx, b: Fx) -> (c: Color3)
    ensures
        c == (Vec3 { x: r, y: g, z: b }),
{
    Vec3 { x: r, y: g, z: b }
}

/// The zero radiance.
pub fn black() -> (c: Color3)
    ensures
        c == (Vec3 { x: 0, y: 0, z: 0 }),
{
    Vec3 { x: 0, y: 0, z: 0 }
}

/// Mirror of one channel's encoding: square-root gamma, clamped below one,
/// scaled to a byte.
pub open spec fn s_encode_channel(c: int) -> int {
    (255 * max_int(0, min_int(s_sqrt(c), FX_COLOR_CLAMP as int))) / 65536
}

fn encode_channel(c: Fx) -> (r: u8)
    ensures
        r as int == s_encode_channel(c as int),
{
    let g = fx_sqrt(c);
    let cl = fx_clamp(g, 0, FX_COLOR_CLAMP);
    ((cl * 255) / 65536) as u8
}

/// A radiance triple as an RGBA8 pixel: each channel gamma-encoded by a
/// square root, clamped below one, and scaled to a byte; alpha is 255.
pub fn color_to_pixel(col: Color3) -> (r: [u8; 4])
    ensures
        r[0] as int == s_encode_channel(col.x as int),
        r[1] as int == s_encode_channel(col.y as int),
        r[2] as int == s_encode_channel(col.z as int),
        r[3] == 255,
{
    [encode_channel(col.x), encode_channel(col.y), encode_channel(col.z), 255u8]
}

} // verus!
