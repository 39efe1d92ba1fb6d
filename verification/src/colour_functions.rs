use vstd::prelude::*;

use crate::apa106led::Apa106Led;

verus! {

/// One channel scaled by `numerator / denominator`: the product is
/// divided with truncation, and anything above 255 saturates to 255.
pub open spec fn scaled_channel(v: u8, numerator: int, denominator: int) -> u8
    recommends
        denominator > 0,
{
    let s = v * numerator / denominator;
    if s > 255 {
        255u8
    } else {
        s as u8
    }
}

fn scale_channel(v: u8, numerator: u32, denominator: u32) -> (r: u8)
    requires
        denominator > 0,
    ensures
        r == scaled_channel(v, numerator as int, denominator as int),
{
    proof {
        assert((v as u64) * (numerator as u64) <= 255u64 * 0xffff_ffffu64) by (nonlinear_arith)
            requires
                v <= 255,
                numerator <= 0xffff_ffffu64,
        ;
    }
    let scaled: u64 = (v as u64) * (numerator as u64) / (denominator as u64);
    if scaled > 255 {
        255
    } else {
        scaled as u8
    }
}

/// Scales every channel of a colour by the factor `numerator /
/// denominator`, truncating, and saturating each channel at 255.  A
/// factor above one brightens and saturates; a factor cannot be negative,
/// so no channel ever wraps below zero.
pub fn fade(colour: Apa106Led, numerator: u32, denominator: u32) -> (c: Apa106Led)
    requires
        denominator > 0,
    ensures
        c.red == scaled_channel(colour.red, numerator as int, denominator as int),
        c.green == scaled_channel(colour.green, numerator as int, denominator as int),
        c.blue == scaled_channel(colour.blue, numerator as int, denominator as int),
{
    Apa106Led {
        red: scale_channel(colour.red, numerator, denominator),
        green: scale_channel(colour.green, numerator, denominator),
        blue: scale_channel(colour.blue, numerator, denominator),
    }
}

/// The colour of the hue wheel at each of its 256 positions: three linear
/// ramps, green to red over the first third, red to blue over the second,
/// blue to green over the last.  Each ramp stays within 0..=255, so no
/// channel wraps or clamps at the 85/170 boundaries.
pub open spec fn wheel_spec(pos: u8) -> Apa106Led {
    if pos < 85 {
        Apa106Led { red: (pos * 3) as u8, green: (255 - pos * 3) as u8, blue: 0 }
    } else if pos < 170 {
        let q = pos - 85;
        Apa106Led { red: (255 - q * 3) as u8, green: 0, blue: (q * 3) as u8 }
    } else {
        let q = pos - 170;
        Apa106Led { red: 0, green: (q * 3) as u8, blue: (255 - q * 3) as u8 }
    }
}

/// A continuous hue cycle over 256 steps, used by the rainbow patterns.
pub fn christmas_wheel(pos: u8) -> (c: Apa106Led)
    ensures
        c == wheel_spec(pos),
{
    if pos < 85 {
        Apa106Led { red: pos * 3, green: 255 - pos * 3, blue: 0 }
    } else if pos < 170 {
        let q = pos - 85;
        Apa106Led { red: 255 - q * 3, green: 0, blue: q * 3 }
    } else {
        let q = pos - 170;
        Apa106Led { red: 0, green: q * 3, blue: 255 - q * 3 }
    }
}

} // verus!
