//! The verified integer-to-float-bits conversion must agree with the
//! hardware's `as f32` casts, rounding included, on every value tried.

use corell::float_bits::{f32_bits_from_i32, f32_bits_from_u32, F32_ONE_BITS, F32_ZERO_BITS};

#[test]
fn unsigned_conversion_matches_hardware_casts() {
    let cases: [u32; 24] = [
        0,
        1,
        2,
        3,
        7,
        100,
        255,
        256,
        800,
        65535,
        0x7F_FFFF,
        0x80_0000,
        0xFF_FFFF,
        0x100_0000,
        0x100_0001,
        0x100_0002,
        0x100_0003,
        0x1FF_FFFF,
        0x1999_9999,
        0x8000_0000,
        0xFFFF_FF7F,
        0xFFFF_FF80,
        0xFFFF_FFFE,
        u32::MAX,
    ];
    for &x in cases.iter() {
        assert_eq!(f32_bits_from_u32(x), (x as f32).to_bits(), "x = {x}");
    }
}

#[test]
fn unsigned_conversion_matches_on_a_dense_sweep() {
    // A multiplicative sweep hits many exponents and rounding positions.
    let mut x: u64 = 1;
    while x < u32::MAX as u64 {
        for delta in [0i64, 1, -1, 3, -3] {
            let v = x as i64 + delta;
            if v >= 0 && v <= u32::MAX as i64 {
                let v = v as u32;
                assert_eq!(f32_bits_from_u32(v), (v as f32).to_bits(), "v = {v}");
            }
        }
        x = x * 3 + 1;
    }
}

#[test]
fn signed_conversion_matches_hardware_casts() {
    let cases: [i32; 16] = [
        0,
        1,
        -1,
        2,
        -2,
        255,
        -255,
        0xFF_FFFF,
        -0xFF_FFFF,
        0x100_0001,
        -0x100_0001,
        0x1999_9999,
        -0x1999_9999,
        i32::MAX,
        -i32::MAX,
        i32::MIN,
    ];
    for &x in cases.iter() {
        assert_eq!(f32_bits_from_i32(x), (x as f32).to_bits(), "x = {x}");
    }
}

#[test]
fn rounding_is_to_nearest_even() {
    // 2^24 + 1 is the first integer a 32-bit float cannot represent: the
    // tie must round to the even significand, i.e. down to 2^24.
    assert_eq!(f32_bits_from_u32(0x100_0001), (16777216f32).to_bits());
    // 2^24 + 3 ties between 2^24 + 2 and 2^24 + 4; the even one is chosen.
    assert_eq!(f32_bits_from_u32(0x100_0003), (16777220f32).to_bits());
}

#[test]
fn depth_range_constants_are_zero_and_one() {
    assert_eq!(F32_ZERO_BITS, 0.0f32.to_bits());
    assert_eq!(F32_ONE_BITS, 1.0f32.to_bits());
}
