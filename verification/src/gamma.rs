use vstd::prelude::*;

use crate::apa106led::Apa106Led;

verus! {

/// Perceptual gamma correction table: raw channel value to drive-corrected
/// channel value.  Monotonic non-decreasing, with the endpoints fixed at
/// `GAMMA_MAP[0] == 0` and `GAMMA_MAP[255] == 255`.
pub const GAMMA_MAP: [u8; 256] = [
    0, 0, 0, 0, 0, 1, 1, 1, 1, 1,
    1, 1, 1, 1, 2, 2, 2, 2, 2, 2,
    2, 2, 2, 3, 3, 3, 3, 3, 3, 3,
    3, 4, 4, 4, 4, 4, 4, 5, 5, 5,
    5, 5, 6, 6, 6, 6, 6, 7, 7, 7,
    7, 8, 8, 8, 8, 9, 9, 9, 10, 10,
    10, 10, 11, 11, 11, 12, 12, 12, 13, 13,
    13, 14, 14, 15, 15, 15, 16, 16, 17, 17,
    17, 18, 18, 19, 19, 20, 20, 21, 21, 22,
    22, 23, 23, 24, 24, 25, 25, 26, 26, 27,
    28, 28, 29, 29, 30, 31, 31, 32, 32, 33,
    34, 34, 35, 36, 37, 37, 38, 39, 39, 40,
    41, 42, 43, 43, 44, 45, 46, 47, 47, 48,
    49, 50, 51, 52, 53, 54, 54, 55, 56, 57,
    58, 59, 60, 61, 62, 63, 64, 65, 66, 67,
    68, 70, 71, 72, 73, 74, 75, 76, 77, 79,
    80, 81, 82, 83, 85, 86, 87, 88, 90, 91,
    92, 94, 95, 96, 98, 99, 100, 102, 103, 105,
    106, 108, 109, 110, 112, 113, 115, 116, 118, 120,
    121, 123, 124, 126, 128, 129, 131, 132, 134, 136,
    138, 139, 141, 143, 145, 146, 148, 150, 152, 154,
    155, 157, 159, 161, 163, 165, 167, 169, 171, 173,
    175, 177, 179, 181, 183, 185, 187, 189, 191, 193,
    196, 198, 200, 202, 204, 207, 209, 211, 214, 216,
    218, 220, 223, 225, 228, 230, 232, 235, 237, 240,
    242, 245, 247, 250, 252, 255,
];

/// The gamma-corrected value of one raw channel value.
pub open spec fn gamma_spec(v: u8) -> u8 {
    GAMMA_MAP[v as int]
}

/// Gamma correction of one channel: a total table lookup, no failure path.
pub fn gamma(v: u8) -> (r: u8)
    ensures
        r == gamma_spec(v),
{
    GAMMA_MAP[v as usize]
}

/// A colour with every channel gamma-corrected.
pub open spec fn gamma_corrected(c: Apa106Led) -> Apa106Led {
    Apa106Led { red: gamma_spec(c.red), green: gamma_spec(c.green), blue: gamma_spec(c.blue) }
}

/// Gamma correction of a whole colour, channel by channel.
pub fn gamma_correct(c: Apa106Led) -> (r: Apa106Led)
    ensures
        r == gamma_corrected(c),
{
    Apa106Led { red: gamma(c.red), green: gamma(c.green), blue: gamma(c.blue) }
}

/// The gamma curve never decreases between adjacent raw values.
pub proof fn lemma_gamma_monotonic(i: u8)
    requires
        i < 255,
    ensures
        gamma_spec(i) <= gamma_spec((i + 1) as u8),
{
}

/// The gamma curve never decreases between any two raw values: a brighter
/// request never drives the LED dimmer.
pub proof fn lemma_gamma_monotonic_between(v: u8, w: u8)
    requires
        v <= w,
    ensures
        gamma_spec(v) <= gamma_spec(w),
    decreases w - v,
{
    if v < w {
        lemma_gamma_monotonic(v);
        lemma_gamma_monotonic_between((v + 1) as u8, w);
    }
}

/// The gamma curve is anchored at both ends: darkest stays darkest and
/// full drive stays full drive.
pub proof fn lemma_gamma_endpoints()
    ensures
        gamma_spec(0) == 0,
        gamma_spec(255) == 255,
{
}

} // verus!
