use led_cube::apa106led::{off, warm_white, Apa106Led};
use led_cube::colour_functions::{christmas_wheel, fade};
use led_cube::cube::{voxel_index, Cube4, CubeError};
use led_cube::encoder::{
    bit_is_set, colour_to_raw, colour_to_raw_nibble, OFF_BYTE, OFF_NIBBLE, ON_BYTE, ON_NIBBLE,
};
use led_cube::gamma::{gamma, GAMMA_MAP};

fn rgb(red: u8, green: u8, blue: u8) -> Apa106Led {
    Apa106Led { red, green, blue }
}

// ---- gamma table ----

#[test]
fn gamma_endpoints() {
    assert_eq!(gamma(0), 0);
    assert_eq!(gamma(255), 255);
}

#[test]
fn gamma_monotonic_over_all_values() {
    for i in 0..255u8 {
        assert!(gamma(i) <= gamma(i + 1), "gamma dips at {}", i);
    }
}

#[test]
fn gamma_spot_values() {
    assert_eq!(gamma(1), 0);
    assert_eq!(gamma(100), 28);
    assert_eq!(gamma(128), 47);
    assert_eq!(gamma(254), 252);
    assert_eq!(GAMMA_MAP[64], 11);
}

// ---- byte-per-bit encoder ----

#[test]
fn encode_is_24_bytes() {
    let raw: [u8; 24] = colour_to_raw(&rgb(12, 200, 77));
    assert_eq!(raw.len(), 24);
}

#[test]
fn encode_full_red() {
    // gamma(255) == 255 and gamma(0) == 0, so the red channel is all
    // ones and the other channels all zeroes.
    let raw = colour_to_raw(&rgb(255, 0, 0));
    for k in 0..8 {
        assert_eq!(raw[k], ON_BYTE);
    }
    for k in 8..24 {
        assert_eq!(raw[k], OFF_BYTE);
    }
}

#[test]
fn encode_uses_only_canonical_pulses() {
    let raw = colour_to_raw(&rgb(3, 141, 59));
    for &byte in raw.iter() {
        assert!(byte == ON_BYTE || byte == OFF_BYTE);
    }
}

#[test]
fn encode_bit_recovery_all_channel_values() {
    // Decoding the eight pulses of the red channel, most significant bit
    // first, recovers the gamma-corrected channel value exactly.
    for v in 0..=255u8 {
        let raw = colour_to_raw(&rgb(v, 0, 0));
        let mut acc: u16 = 0;
        for k in 0..8 {
            let bit: u16 = if raw[k] == ON_BYTE { 1 } else { 0 };
            acc = acc * 2 + bit;
        }
        assert_eq!(acc, gamma(v) as u16, "wrong decode for raw value {}", v);
    }
}

#[test]
fn encode_channel_order_is_red_green_blue() {
    // One bright channel at a time; gamma(255) == 255 lights all eight
    // pulses of exactly that channel's block.
    let green = colour_to_raw(&rgb(0, 255, 0));
    assert_eq!(&green[0..8], &[OFF_BYTE; 8]);
    assert_eq!(&green[8..16], &[ON_BYTE; 8]);
    assert_eq!(&green[16..24], &[OFF_BYTE; 8]);

    let blue = colour_to_raw(&rgb(0, 0, 255));
    assert_eq!(&blue[0..8], &[OFF_BYTE; 8]);
    assert_eq!(&blue[8..16], &[OFF_BYTE; 8]);
    assert_eq!(&blue[16..24], &[ON_BYTE; 8]);
}

#[test]
fn bit_is_set_matches_shifts() {
    assert!(bit_is_set(0b1000_0000, 7));
    assert!(!bit_is_set(0b1000_0000, 0));
    assert!(bit_is_set(0b0000_0001, 0));
    for k in 0..8 {
        assert_eq!(bit_is_set(0xA5, k), (0xA5u8 >> k) & 1 == 1);
    }
}

// ---- nibble-per-bit encoder ----

#[test]
fn nibble_encode_is_12_bytes() {
    let raw: [u8; 12] = colour_to_raw_nibble(&rgb(12, 200, 77));
    assert_eq!(raw.len(), 12);
}

#[test]
fn nibble_encode_full_red() {
    // All-ones red packs the ON nibble twice per byte; dark channels pack
    // the OFF nibble twice per byte.
    let raw = colour_to_raw_nibble(&rgb(255, 0, 0));
    let both_on: u8 = (ON_NIBBLE << 4) | ON_NIBBLE;
    let both_off: u8 = (OFF_NIBBLE << 4) | OFF_NIBBLE;
    assert_eq!(both_on, 0b1110_1110);
    assert_eq!(both_off, 0b1000_1000);
    for k in 0..4 {
        assert_eq!(raw[k], both_on);
    }
    for k in 4..12 {
        assert_eq!(raw[k], both_off);
    }
}

#[test]
fn nibble_encode_bit_recovery_all_channel_values() {
    // Each output byte carries two pulses, upper nibble first; unpacking
    // them recovers the gamma-corrected channel value.
    for v in 0..=255u8 {
        let raw = colour_to_raw_nibble(&rgb(0, v, 0));
        let mut acc: u16 = 0;
        for k in 4..8 {
            let hi: u16 = if raw[k] >> 4 == ON_NIBBLE { 1 } else { 0 };
            let lo: u16 = if raw[k] & 0x0F == ON_NIBBLE { 1 } else { 0 };
            acc = acc * 4 + hi * 2 + lo;
        }
        assert_eq!(acc, gamma(v) as u16, "wrong decode for raw value {}", v);
    }
}

// ---- colour functions ----

#[test]
fn wheel_boundaries() {
    assert_eq!(christmas_wheel(0), rgb(0, 255, 0));
    assert_eq!(christmas_wheel(85), rgb(255, 0, 0));
    assert_eq!(christmas_wheel(170), rgb(0, 0, 255));
}

#[test]
fn wheel_interior_points() {
    assert_eq!(christmas_wheel(10), rgb(30, 225, 0));
    assert_eq!(christmas_wheel(100), rgb(210, 0, 45));
    assert_eq!(christmas_wheel(200), rgb(0, 90, 165));
    assert_eq!(christmas_wheel(255), rgb(0, 255, 0));
}

#[test]
fn fade_to_zero() {
    assert_eq!(fade(rgb(10, 20, 30), 0, 1), rgb(0, 0, 0));
}

#[test]
fn fade_by_half_truncates() {
    assert_eq!(fade(rgb(200, 100, 50), 1, 2), rgb(100, 50, 25));
    assert_eq!(fade(rgb(255, 3, 1), 1, 2), rgb(127, 1, 0));
}

#[test]
fn fade_above_one_saturates() {
    assert_eq!(fade(rgb(200, 100, 50), 2, 1), rgb(255, 200, 100));
    assert_eq!(fade(rgb(255, 255, 255), 1, 1), rgb(255, 255, 255));
}

#[test]
fn named_colours() {
    assert_eq!(warm_white(), rgb(255, 183, 76));
    assert_eq!(off(), rgb(0, 0, 0));
}

// ---- frame buffer ----

fn snapshot(cube: &Cube4) -> Vec<Apa106Led> {
    let mut all: Vec<Apa106Led> = Vec::new();
    for i in 0..64 {
        all.push(cube.get_at_index(i).unwrap());
    }
    all
}

#[test]
fn new_sets_every_voxel_to_background() {
    let background = rgb(0, 5, 0);
    let cube = Cube4::new(background);
    for colour in snapshot(&cube) {
        assert_eq!(colour, background);
    }
}

#[test]
fn fill_overwrites_every_voxel() {
    let mut cube = Cube4::new(off());
    let colour = rgb(1, 2, 3);
    cube.fill(colour);
    for c in snapshot(&cube) {
        assert_eq!(c, colour);
    }
}

#[test]
fn set_at_index_out_of_range_fails() {
    let mut cube = Cube4::new(off());
    assert_eq!(
        cube.set_at_index(64, rgb(1, 1, 1)),
        Err(CubeError::IndexOutOfRange)
    );
    assert_eq!(
        cube.set_at_index(1000, rgb(1, 1, 1)),
        Err(CubeError::IndexOutOfRange)
    );
    // The failed calls left the buffer untouched.
    for c in snapshot(&cube) {
        assert_eq!(c, off());
    }
}

#[test]
fn set_at_index_63_changes_only_voxel_63() {
    let background = rgb(7, 7, 7);
    let mut cube = Cube4::new(background);
    let colour = rgb(9, 8, 7);
    assert_eq!(cube.set_at_index(63, colour), Ok(()));
    let all = snapshot(&cube);
    for i in 0..63 {
        assert_eq!(all[i], background);
    }
    assert_eq!(all[63], colour);
}

#[test]
fn get_at_index_out_of_range_fails() {
    let cube = Cube4::new(off());
    assert_eq!(cube.get_at_index(64), Err(CubeError::IndexOutOfRange));
}

#[test]
fn voxel_index_matches_wiring_order() {
    assert_eq!(voxel_index(0, 0, 0), 0);
    assert_eq!(voxel_index(3, 0, 0), 3);
    assert_eq!(voxel_index(0, 1, 0), 4);
    assert_eq!(voxel_index(0, 0, 1), 16);
    assert_eq!(voxel_index(1, 2, 3), 57);
    // The mapping enumerates each of the 64 voxels exactly once.
    let mut seen: [bool; 64] = [false; 64];
    for z in 0..4 {
        for y in 0..4 {
            for x in 0..4 {
                let i = voxel_index(x, y, z);
                assert!(!seen[i]);
                seen[i] = true;
            }
        }
    }
    assert!(seen.iter().all(|&s| s));
}

fn changed_indices(before: &[Apa106Led], after: &[Apa106Led]) -> Vec<usize> {
    let mut changed: Vec<usize> = Vec::new();
    for i in 0..64 {
        if before[i] != after[i] {
            changed.push(i);
        }
    }
    changed
}

#[test]
fn fill_panel_mutates_exactly_its_16_voxels() {
    for p in 0..4usize {
        let background = rgb(0, 0, 0);
        let mut cube = Cube4::new(background);
        let before = snapshot(&cube);
        cube.fill_panel(p, rgb(50, 60, 70));
        let after = snapshot(&cube);
        let changed = changed_indices(&before, &after);
        assert_eq!(changed.len(), 16, "panel {} changed {:?}", p, changed);
        for i in changed {
            assert_eq!(i % 4, p);
        }
    }
}

#[test]
fn fill_slice_mutates_exactly_its_16_voxels() {
    for s in 0..4usize {
        let mut cube = Cube4::new(rgb(0, 0, 0));
        let before = snapshot(&cube);
        cube.fill_slice(s, rgb(50, 60, 70));
        let after = snapshot(&cube);
        let changed = changed_indices(&before, &after);
        assert_eq!(changed.len(), 16, "slice {} changed {:?}", s, changed);
        for i in changed {
            assert_eq!((i / 4) % 4, s);
        }
    }
}

#[test]
fn fill_layer_mutates_exactly_its_16_voxels() {
    for l in 0..4usize {
        let mut cube = Cube4::new(rgb(0, 0, 0));
        let before = snapshot(&cube);
        cube.fill_layer(l, rgb(50, 60, 70));
        let after = snapshot(&cube);
        let changed = changed_indices(&before, &after);
        assert_eq!(changed.len(), 16, "layer {} changed {:?}", l, changed);
        for i in changed {
            assert_eq!(i / 16, l);
        }
    }
}

#[test]
fn axis_groups_partition_the_cube() {
    // Along each axis the four groups are pairwise disjoint and together
    // cover all 64 indices: painting the groups one after the other
    // touches every voxel exactly once.
    let dark = rgb(0, 0, 0);
    let lit = rgb(1, 1, 1);
    for axis in 0..3 {
        let mut cube = Cube4::new(dark);
        let mut touched: [u32; 64] = [0; 64];
        for group in 0..4usize {
            let before = snapshot(&cube);
            match axis {
                0 => cube.fill_panel(group, lit),
                1 => cube.fill_slice(group, lit),
                _ => cube.fill_layer(group, lit),
            }
            let after = snapshot(&cube);
            for i in changed_indices(&before, &after) {
                touched[i] += 1;
            }
        }
        assert!(touched.iter().all(|&n| n == 1), "axis {} touched {:?}", axis, touched);
    }
}

// ---- flush ----

#[test]
fn flush_is_1536_bytes() {
    let cube = Cube4::new(off());
    assert_eq!(cube.flush().len(), 64 * 24);
}

#[test]
fn flush_of_dark_cube_is_all_zero_pulses() {
    // gamma(0) == 0, so every voxel serializes to 24 zero pulses.
    let cube = Cube4::new(off());
    for byte in cube.flush() {
        assert_eq!(byte, OFF_BYTE);
    }
}

#[test]
fn flush_serializes_voxels_in_chain_order() {
    let mut cube = Cube4::new(off());
    let colour = rgb(255, 0, 77);
    cube.set_at_index(0, colour).unwrap();
    cube.set_at_index(63, rgb(1, 2, 3)).unwrap();
    let stream = cube.flush();

    let first = colour_to_raw(&colour);
    assert_eq!(&stream[0..24], &first[..]);

    let last = colour_to_raw(&rgb(1, 2, 3));
    assert_eq!(&stream[63 * 24..64 * 24], &last[..]);

    let dark = colour_to_raw(&off());
    for v in 1..63 {
        assert_eq!(&stream[v * 24..(v + 1) * 24], &dark[..], "voxel {}", v);
    }
}

#[test]
fn flush_nibble_is_768_bytes_in_chain_order() {
    let mut cube = Cube4::new(off());
    let colour = rgb(13, 200, 254);
    cube.set_at_index(5, colour).unwrap();
    let stream = cube.flush_nibble();
    assert_eq!(stream.len(), 64 * 12);

    let block = colour_to_raw_nibble(&colour);
    assert_eq!(&stream[5 * 12..6 * 12], &block[..]);

    let dark = colour_to_raw_nibble(&off());
    for v in 0..64 {
        if v != 5 {
            assert_eq!(&stream[v * 12..(v + 1) * 12], &dark[..], "voxel {}", v);
        }
    }
}
