//! Holds the integer-computed transform to real IEEE-754 arithmetic: every
//! scale entry must equal the float formula `1.0 / (dim as f32 / 2.0)` bit
//! for bit, and the serialized payload must match what casting the float
//! matrix to bytes produces.

use viewport_uniform::fbits::recip_half_bits;
use viewport_uniform::matrix::matrix_bytes;

fn float_matrix(w: u32, h: u32) -> [f32; 16] {
    [
        1.0 / (w as f32 / 2.0),
        0.0,
        0.0,
        0.0,
        0.0,
        -1.0 / (h as f32 / 2.0),
        0.0,
        0.0,
        0.0,
        0.0,
        1.0,
        0.0,
        -1.0,
        1.0,
        0.0,
        1.0,
    ]
}

fn entry(bytes: &[u8], i: usize) -> f32 {
    f32::from_le_bytes([bytes[4 * i], bytes[4 * i + 1], bytes[4 * i + 2], bytes[4 * i + 3]])
}

#[test]
fn diagonal_and_translation_for_800_600() {
    let bytes = matrix_bytes(800, 600);
    assert_eq!(bytes.len(), 64);
    assert_eq!(entry(&bytes, 0), 1.0 / 400.0);
    assert_eq!(entry(&bytes, 5), -1.0 / 300.0);
    assert_eq!(entry(&bytes, 10), 1.0);
    assert_eq!(entry(&bytes, 12), -1.0);
    assert_eq!(entry(&bytes, 13), 1.0);
    assert_eq!(entry(&bytes, 14), 0.0);
    assert_eq!(entry(&bytes, 15), 1.0);
}

#[test]
fn payload_matches_float_cast_for_1920_1080() {
    let bytes = matrix_bytes(1920, 1080);
    let floats = float_matrix(1920, 1080);
    let expected: &[u8] = bytemuck::cast_slice(&floats);
    assert_eq!(bytes.as_slice(), expected);
}

#[test]
fn whole_payload_matches_floats_for_many_resolutions() {
    for (w, h) in [
        (1u32, 1u32),
        (2, 2),
        (3, 7),
        (640, 480),
        (800, 600),
        (1366, 768),
        (1920, 1080),
        (2560, 1440),
        (3840, 2160),
        (u32::MAX, u32::MAX - 1),
    ] {
        let bytes = matrix_bytes(w, h);
        let floats = float_matrix(w, h);
        let expected: &[u8] = bytemuck::cast_slice(&floats);
        assert_eq!(bytes.as_slice(), expected, "resolution {w}x{h}");
    }
}

#[test]
fn reciprocal_bits_match_float_division_small_range() {
    for v in 1u32..=1_000_000 {
        let expected = (1.0f32 / (v as f32 / 2.0)).to_bits();
        assert_eq!(recip_half_bits(v), expected, "dimension {v}");
    }
}

#[test]
fn reciprocal_bits_match_float_division_large_values() {
    // Ranges that cross the binades where converting the dimension to f32
    // starts to round, including tie cases, and the top of the u32 range.
    let bases = [
        (1u32 << 24) - 100,
        (1u32 << 25) - 100,
        (1u32 << 26) - 100,
        (1u32 << 31) - 100_000,
        u32::MAX - 200_000,
    ];
    for base in bases {
        for off in 0..200_000u32 {
            let v = base + off;
            let expected = (1.0f32 / (v as f32 / 2.0)).to_bits();
            assert_eq!(recip_half_bits(v), expected, "dimension {v}");
        }
    }
}

#[test]
fn zero_dimension_propagates_infinity() {
    // Degenerate but accepted: the float formula divides by zero, and the
    // computed bits are exactly its infinities.
    assert_eq!(recip_half_bits(0), f32::INFINITY.to_bits());
    let bytes = matrix_bytes(0, 0);
    assert_eq!(entry(&bytes, 0), f32::INFINITY);
    assert_eq!(entry(&bytes, 5), f32::NEG_INFINITY);
}
