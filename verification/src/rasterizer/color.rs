//! Packed colors and the conversion from normalized channels.

use vstd::prelude::*;
use super::fixed::ONE;
use super::math::Vec4;

verus! {

/// Four 8-bit channels, stored in a buffer in the order r, g, b, a.
#[derive(Debug, Copy, Clone, PartialEq, Eq, Structural)]
pub struct Color {
    pub r: u8,
    pub g: u8,
    pub b: u8,
    pub a: u8,
}

/// The 8-bit value of a normalized channel: the scalar times 255, clamped to
/// `[0, 255]`, with the fraction dropped.
pub open spec fn channel(raw: int) -> int {
    let scaled = raw * 255 / (ONE as int);
    if scaled < 0 {
        0
    } else if scaled > 255 {
        255
    } else {
        scaled
    }
}

impl Color {
    /// The color held by the four bytes of pixel `i` of a buffer.
    pub open spec fn from_bytes(bytes: Seq<u8>, i: int) -> Color {
        Color { r: bytes[4 * i], g: bytes[4 * i + 1], b: bytes[4 * i + 2], a: bytes[4 * i + 3] }
    }

    /// The four bytes of the color, in buffer order.
    pub open spec fn bytes(self) -> Seq<u8> {
        seq![self.r, self.g, self.b, self.a]
    }
}

fn quantize(raw: i64) -> (c: u8)
    ensures
        c == channel(raw as int),
{
    if raw <= 0 {
        0
    } else if raw >= ONE as i64 {
        255
    } else {
        ((raw * 255) / (ONE as i64)) as u8
    }
}

impl Vec4 {
    /// The packed color of a vector of normalized channels r, g, b, a.
    pub open spec fn spec_to_color(&self) -> Color {
        Color {
            r: channel(self.x as int) as u8,
            g: channel(self.y as int) as u8,
            b: channel(self.z as int) as u8,
            a: channel(self.w as int) as u8,
        }
    }

    #[verifier::when_used_as_spec(spec_to_color)]
    pub fn to_color(&self) -> (c: Color)
        ensures
            c == self.spec_to_color(),
    {
        Color {
            r: quantize(self.x),
            g: quantize(self.y),
            b: quantize(self.z),
            a: quantize(self.w),
        }
    }
}

/// A brighter channel never packs to a darker byte.
pub proof fn lemma_channel_monotone(a: int, b: int)
    requires
        a <= b,
    ensures
        channel(a) <= channel(b),
{
}

/// Packing a channel of `[0, 1]` loses less than one step of 1/255: the byte,
/// read back as a multiple of 1/255, is the largest such multiple not above the
/// channel.
pub proof fn lemma_channel_round_trip(raw: int)
    requires
        0 <= raw <= ONE,
    ensures
        0 <= channel(raw) <= 255,
        channel(raw) * ONE <= raw * 255 < (channel(raw) + 1) * ONE,
{
}

} // verus!
