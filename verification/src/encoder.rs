use vstd::prelude::*;

use crate::apa106led::Apa106Led;
use crate::gamma::gamma_correct;
use crate::gamma::gamma_corrected;

verus! {

// The transmitter shifts each output byte out at a rate chosen so that one
// byte lasts exactly one bit period of the LED's one-wire protocol.  The
// byte's own bit pattern then reproduces the high/low pulse shape of one
// logical bit: a long high followed by a short low for a logical one, a
// short high followed by a long low for a logical zero.
/// Byte-per-bit pulse pattern for a logical one (long high, short low).
pub const ON_BYTE: u8 = 0b1111_1100;

/// Byte-per-bit pulse pattern for a logical zero (short high, long low).
pub const OFF_BYTE: u8 = 0b1100_0000;

/// Nibble pulse pattern for a logical one (three quarters high).
pub const ON_NIBBLE: u8 = 0b1110;

/// Nibble pulse pattern for a logical zero (one quarter high).
pub const OFF_NIBBLE: u8 = 0b1000;

/// Whether bit `bit_index` (counted from the least significant end) of
/// `byte` is set.
pub open spec fn bit_of(byte: u8, bit_index: u8) -> bool
    recommends
        bit_index < 8,
{
    byte & (1u8 << bit_index) != 0
}

/// Tests one bit of a byte, least significant bit at index 0.
pub fn bit_is_set(byte: u8, bit_index: u8) -> (r: bool)
    requires
        bit_index < 8,
    ensures
        r == bit_of(byte, bit_index),
{
    (byte & (1 << bit_index)) != 0
}

/// The pulse byte that stands for one logical bit.
pub open spec fn pulse_byte(bit: bool) -> u8 {
    if bit {
        ON_BYTE
    } else {
        OFF_BYTE
    }
}

/// The logical bit a pulse byte stands for, recovered by matching it
/// against the canonical patterns.
pub open spec fn pulse_to_bit(byte: u8) -> bool {
    byte == ON_BYTE
}

/// The eight pulse bytes of one channel value, most significant bit first.
pub open spec fn channel_pulses(v: u8) -> Seq<u8> {
    Seq::new(8, |k: int| pulse_byte(bit_of(v, (7 - k) as u8)))
}

/// The 24 pulse bytes of a whole colour: red, then green, then blue.
pub open spec fn colour_pulses(c: Apa106Led) -> Seq<u8> {
    channel_pulses(c.red) + channel_pulses(c.green) + channel_pulses(c.blue)
}

/// What `colour_to_raw` emits: the pulse bytes of the gamma-corrected colour.
pub open spec fn raw_spec(c: Apa106Led) -> Seq<u8> {
    colour_pulses(gamma_corrected(c))
}

/// The channel value recovered from eight pulse bytes, most significant
/// bit first.
pub open spec fn decode_channel(s: Seq<u8>) -> u8
    recommends
        s.len() == 8,
{
    ((if pulse_to_bit(s[0]) {
        128int
    } else {
        0int
    }) + (if pulse_to_bit(s[1]) {
        64int
    } else {
        0int
    }) + (if pulse_to_bit(s[2]) {
        32int
    } else {
        0int
    }) + (if pulse_to_bit(s[3]) {
        16int
    } else {
        0int
    }) + (if pulse_to_bit(s[4]) {
        8int
    } else {
        0int
    }) + (if pulse_to_bit(s[5]) {
        4int
    } else {
        0int
    }) + (if pulse_to_bit(s[6]) {
        2int
    } else {
        0int
    }) + (if pulse_to_bit(s[7]) {
        1int
    } else {
        0int
    })) as u8
}

proof fn lemma_pulse_round_trip(bit: bool)
    ensures
        pulse_to_bit(pulse_byte(bit)) == bit,
{
}

/// Bit recovery for the byte-per-bit encoding: matching each of a
/// channel's eight pulse bytes against the canonical patterns and
/// reassembling the bits, most significant first, returns the channel
/// value the pulses were produced from.
pub proof fn lemma_channel_pulses_decode(v: u8)
    ensures
        decode_channel(channel_pulses(v)) == v,
{
    let s = channel_pulses(v);
    assert forall|k: int| 0 <= k < 8 implies pulse_to_bit(s[k]) == bit_of(v, (7 - k) as u8) by {
        lemma_pulse_round_trip(bit_of(v, (7 - k) as u8));
    }
    assert(((if bit_of(v, 7) {
        128int
    } else {
        0int
    }) + (if bit_of(v, 6) {
        64int
    } else {
        0int
    }) + (if bit_of(v, 5) {
        32int
    } else {
        0int
    }) + (if bit_of(v, 4) {
        16int
    } else {
        0int
    }) + (if bit_of(v, 3) {
        8int
    } else {
        0int
    }) + (if bit_of(v, 2) {
        4int
    } else {
        0int
    }) + (if bit_of(v, 1) {
        2int
    } else {
        0int
    }) + (if bit_of(v, 0) {
        1int
    } else {
        0int
    })) == v) by (bit_vector);
}

/// Encodes one colour for the byte-per-bit transport: gamma-corrects each
/// channel, then emits one pulse byte per logical bit, 24 bytes in all,
/// channels in the order red, green, blue, most significant bit first.
pub fn colour_to_raw(input: &Apa106Led) -> (bytes: [u8; 24])
    ensures
        bytes@ == raw_spec(*input),
{
    let mut bytes: [u8; 24] = [0; 24];
    let corrected = gamma_correct(*input);

    // The transmitter shifts the most significant bit out first.
    for pos in 0..8
        invariant
            corrected == gamma_corrected(*input),
            forall|k: int|
                7 - pos < k < 8 ==> #[trigger] bytes@[k] == pulse_byte(
                    bit_of(corrected.red, (7 - k) as u8),
                ),
            forall|k: int|
                15 - pos < k < 16 ==> #[trigger] bytes@[k] == pulse_byte(
                    bit_of(corrected.green, (15 - k) as u8),
                ),
            forall|k: int|
                23 - pos < k < 24 ==> #[trigger] bytes@[k] == pulse_byte(
                    bit_of(corrected.blue, (23 - k) as u8),
                ),
    {
        bytes[7 - pos] = if bit_is_set(corrected.red, pos as u8) {
            ON_BYTE
        } else {
            OFF_BYTE
        };

        bytes[8 + (7 - pos)] = if bit_is_set(corrected.green, pos as u8) {
            ON_BYTE
        } else {
            OFF_BYTE
        };

        bytes[16 + (7 - pos)] = if bit_is_set(corrected.blue, pos as u8) {
            ON_BYTE
        } else {
            OFF_BYTE
        };
    }
    assert(bytes@ =~= raw_spec(*input));
    bytes
}

/// The nibble pulse that stands for one logical bit.
pub open spec fn pulse_nibble(bit: bool) -> u8 {
    if bit {
        ON_NIBBLE
    } else {
        OFF_NIBBLE
    }
}

/// The logical bit a nibble pulse stands for.
pub open spec fn nibble_to_bit(nibble: u8) -> bool {
    nibble == ON_NIBBLE
}

/// One output byte of the nibble-per-bit encoding: the pulse for `hi` in
/// the upper nibble (transmitted first), the pulse for `lo` in the lower.
pub open spec fn pulse_nibble_pair(hi: bool, lo: bool) -> u8 {
    (pulse_nibble(hi) * 16 + pulse_nibble(lo)) as u8
}

/// The four pulse bytes of one channel value in the nibble-per-bit
/// encoding, most significant bit first.
pub open spec fn channel_nibble_pulses(v: u8) -> Seq<u8> {
    Seq::new(
        4,
        |k: int| pulse_nibble_pair(bit_of(v, (7 - 2 * k) as u8), bit_of(v, (6 - 2 * k) as u8)),
    )
}

/// The 12 nibble-encoded bytes of a whole colour: red, then green, then blue.
pub open spec fn colour_nibble_pulses(c: Apa106Led) -> Seq<u8> {
    channel_nibble_pulses(c.red) + channel_nibble_pulses(c.green) + channel_nibble_pulses(c.blue)
}

/// What `colour_to_raw_nibble` emits: the nibble pulses of the
/// gamma-corrected colour.
pub open spec fn raw_nibble_spec(c: Apa106Led) -> Seq<u8> {
    colour_nibble_pulses(gamma_corrected(c))
}

/// The channel value recovered from four nibble-encoded bytes: each byte
/// carries two pulses, the upper nibble first.
pub open spec fn decode_nibble_channel(s: Seq<u8>) -> u8
    recommends
        s.len() == 4,
{
    ((if nibble_to_bit(s[0] / 16) {
        128int
    } else {
        0int
    }) + (if nibble_to_bit(s[0] % 16) {
        64int
    } else {
        0int
    }) + (if nibble_to_bit(s[1] / 16) {
        32int
    } else {
        0int
    }) + (if nibble_to_bit(s[1] % 16) {
        16int
    } else {
        0int
    }) + (if nibble_to_bit(s[2] / 16) {
        8int
    } else {
        0int
    }) + (if nibble_to_bit(s[2] % 16) {
        4int
    } else {
        0int
    }) + (if nibble_to_bit(s[3] / 16) {
        2int
    } else {
        0int
    }) + (if nibble_to_bit(s[3] % 16) {
        1int
    } else {
        0int
    })) as u8
}

proof fn lemma_nibble_pair_round_trip(hi: bool, lo: bool)
    ensures
        nibble_to_bit(pulse_nibble_pair(hi, lo) / 16) == hi,
        nibble_to_bit(pulse_nibble_pair(hi, lo) % 16) == lo,
{
}

/// Bit recovery for the nibble-per-bit encoding: splitting each of a
/// channel's four output bytes into its two nibble pulses and matching
/// them against the canonical patterns returns the channel value the
/// pulses were produced from.
pub proof fn lemma_channel_nibble_pulses_decode(v: u8)
    ensures
        decode_nibble_channel(channel_nibble_pulses(v)) == v,
{
    let s = channel_nibble_pulses(v);
    assert forall|k: int| 0 <= k < 4 implies nibble_to_bit(s[k] / 16) == bit_of(
        v,
        (7 - 2 * k) as u8,
    ) && nibble_to_bit(s[k] % 16) == bit_of(v, (6 - 2 * k) as u8) by {
        lemma_nibble_pair_round_trip(bit_of(v, (7 - 2 * k) as u8), bit_of(v, (6 - 2 * k) as u8));
    }
    assert(((if bit_of(v, 7) {
        128int
    } else {
        0int
    }) + (if bit_of(v, 6) {
        64int
    } else {
        0int
    }) + (if bit_of(v, 5) {
        32int
    } else {
        0int
    }) + (if bit_of(v, 4) {
        16int
    } else {
        0int
    }) + (if bit_of(v, 3) {
        8int
    } else {
        0int
    }) + (if bit_of(v, 2) {
        4int
    } else {
        0int
    }) + (if bit_of(v, 1) {
        2int
    } else {
        0int
    }) + (if bit_of(v, 0) {
        1int
    } else {
        0int
    })) == v) by (bit_vector);
}

/// Packs the pulses for two logical bits into one output byte, the pulse
/// for `hi` in the upper nibble.
fn nibble_pair(hi: bool, lo: bool) -> (byte: u8)
    ensures
        byte == pulse_nibble_pair(hi, lo),
{
    let hi_pulse: u8 = if hi {
        ON_NIBBLE
    } else {
        OFF_NIBBLE
    };
    let lo_pulse: u8 = if lo {
        ON_NIBBLE
    } else {
        OFF_NIBBLE
    };
    hi_pulse * 16 + lo_pulse
}

/// Encodes one colour for the nibble-per-bit transport: gamma-corrects
/// each channel, then packs two pulses into each output byte, 12 bytes in
/// all, channels in the order red, green, blue, most significant bit
/// first, upper nibble transmitted first.
pub fn colour_to_raw_nibble(input: &Apa106Led) -> (bytes: [u8; 12])
    ensures
        bytes@ == raw_nibble_spec(*input),
{
    let mut bytes: [u8; 12] = [0; 12];
    let corrected = gamma_correct(*input);

    for pair in 0..4
        invariant
            corrected == gamma_corrected(*input),
            forall|k: int|
                0 <= k < pair ==> #[trigger] bytes@[k] == channel_nibble_pulses(corrected.red)[k],
            forall|k: int|
                4 <= k < 4 + pair ==> #[trigger] bytes@[k] == channel_nibble_pulses(
                    corrected.green,
                )[k - 4],
            forall|k: int|
                8 <= k < 8 + pair ==> #[trigger] bytes@[k] == channel_nibble_pulses(
                    corrected.blue,
                )[k - 8],
    {
        let hi_index: u8 = 7 - 2 * (pair as u8);
        let lo_index: u8 = 6 - 2 * (pair as u8);

        bytes[pair] = nibble_pair(
            bit_is_set(corrected.red, hi_index),
            bit_is_set(corrected.red, lo_index),
        );
        bytes[4 + pair] = nibble_pair(
            bit_is_set(corrected.green, hi_index),
            bit_is_set(corrected.green, lo_index),
        );
        bytes[8 + pair] = nibble_pair(
            bit_is_set(corrected.blue, hi_index),
            bit_is_set(corrected.blue, lo_index),
        );
    }
    assert(bytes@ =~= raw_nibble_spec(*input));
    bytes
}

/// Every colour encodes to a fixed length: exactly 24 bytes in the
/// byte-per-bit encoding and exactly 12 in the nibble-per-bit encoding,
/// whatever the channel values.
pub proof fn lemma_encoding_lengths(c: Apa106Led)
    ensures
        raw_spec(c).len() == 24,
        raw_nibble_spec(c).len() == 12,
{
}

/// Bit recovery over a whole colour: the three 8-byte blocks of the
/// byte-per-bit pulse stream decode back to the three channel values the
/// stream was produced from.
pub proof fn lemma_colour_pulses_decode(c: Apa106Led)
    ensures
        decode_channel(colour_pulses(c).subrange(0, 8)) == c.red,
        decode_channel(colour_pulses(c).subrange(8, 16)) == c.green,
        decode_channel(colour_pulses(c).subrange(16, 24)) == c.blue,
{
    assert(colour_pulses(c).subrange(0, 8) =~= channel_pulses(c.red));
    assert(colour_pulses(c).subrange(8, 16) =~= channel_pulses(c.green));
    assert(colour_pulses(c).subrange(16, 24) =~= channel_pulses(c.blue));
    lemma_channel_pulses_decode(c.red);
    lemma_channel_pulses_decode(c.green);
    lemma_channel_pulses_decode(c.blue);
}

} // verus!

