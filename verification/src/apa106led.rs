use vstd::prelude::*;

verus! {

/// Colour of one APA106 LED: three independent 8-bit channels,
/// each in 0..=255.  A plain value type with no identity beyond
/// its channel values.
#[derive(Clone, Copy, PartialEq, Eq, Structural, Debug)]
pub struct Apa106Led {
    pub red: u8,
    pub green: u8,
    pub blue: u8,
}

/// The warm white tint used by the animation routines.
pub fn warm_white() -> (c: Apa106Led)
    ensures
        c == (Apa106Led { red: 255, green: 183, blue: 76 }),
{
    Apa106Led { red: 255, green: 183, blue: 76 }
}

/// All channels dark.
pub fn off() -> (c: Apa106Led)
    ensures
        c == (Apa106Led { red: 0, green: 0, blue: 0 }),
{
    Apa106Led { red: 0, green: 0, blue: 0 }
}

} // verus!
