//! State-machine behavior of `Globals`: dirty tracking across resolution
//! reports, and the exact copies an upload records into the command stream.

use viewport_uniform::globals::Globals;
use viewport_uniform::gpu::{CommandEncoder, Device};
use viewport_uniform::matrix::matrix_bytes;

#[test]
fn construction_starts_dirty_at_zero() {
    let device = Device::new();
    let globals = Globals::new(&device);
    assert!(globals.is_dirty());
}

#[test]
fn resource_descriptors() {
    let device = Device::new();
    let globals = Globals::new(&device);
    let layout = globals.layout();
    assert_eq!(layout.binding, 0);
    assert!(layout.vertex_visibility);
    assert!(layout.uniform_buffer);
    assert!(!layout.has_dynamic_offset);
    let bind_group = globals.bind_group();
    assert_eq!(bind_group.binding, 0);
    assert_eq!(bind_group.offset, 0);
    assert_eq!(bind_group.size, 64);
}

#[test]
fn set_resolution_dirty_transitions() {
    let device = Device::new();
    let mut encoder = CommandEncoder::new();
    let mut globals = Globals::new(&device);

    globals.set_resolution(5, 5);
    assert!(globals.is_dirty());
    globals.update_uniform(&device, &mut encoder);
    assert!(!globals.is_dirty());

    // Repeating the stored pair never re-dirties a clean state.
    globals.set_resolution(5, 5);
    assert!(!globals.is_dirty());
    globals.set_resolution(5, 5);
    assert!(!globals.is_dirty());

    // Any differing dimension dirties it.
    globals.set_resolution(5, 6);
    assert!(globals.is_dirty());
}

#[test]
fn dirty_upload_records_exactly_one_copy() {
    let device = Device::new();
    let mut encoder = CommandEncoder::new();
    let mut globals = Globals::new(&device);

    globals.set_resolution(800, 600);
    globals.update_uniform(&device, &mut encoder);
    assert!(!globals.is_dirty());
    assert_eq!(encoder.copy_count(), 1);

    let copy = &encoder.recorded()[0];
    assert_eq!(copy.src_offset, 0);
    assert_eq!(copy.dst_offset, 0);
    assert_eq!(copy.size, 64);
    assert_eq!(copy.src.contents, matrix_bytes(800, 600));
}

#[test]
fn clean_upload_records_nothing() {
    let device = Device::new();
    let mut encoder = CommandEncoder::new();
    let mut globals = Globals::new(&device);

    globals.set_resolution(800, 600);
    globals.update_uniform(&device, &mut encoder);
    assert_eq!(encoder.copy_count(), 1);

    // Steady state: the flag is clear, so further uploads are no-ops.
    globals.update_uniform(&device, &mut encoder);
    globals.update_uniform(&device, &mut encoder);
    assert_eq!(encoder.copy_count(), 1);
}

#[test]
fn unchanged_resolution_causes_no_second_copy() {
    let device = Device::new();
    let mut encoder = CommandEncoder::new();
    let mut globals = Globals::new(&device);

    globals.set_resolution(100, 100);
    globals.update_uniform(&device, &mut encoder);
    assert_eq!(encoder.copy_count(), 1);

    globals.set_resolution(100, 100);
    globals.update_uniform(&device, &mut encoder);
    assert_eq!(encoder.copy_count(), 1);
}

#[test]
fn only_latest_resolution_is_uploaded() {
    let device = Device::new();
    let mut encoder = CommandEncoder::new();
    let mut globals = Globals::new(&device);

    globals.set_resolution(100, 100);
    globals.set_resolution(200, 200);
    globals.update_uniform(&device, &mut encoder);

    assert_eq!(encoder.copy_count(), 1);
    let copy = &encoder.recorded()[0];
    assert_eq!(copy.src.contents, matrix_bytes(200, 200));
    assert_ne!(copy.src.contents, matrix_bytes(100, 100));
}

#[test]
fn round_trip_staged_bytes_for_1920_1080() {
    let device = Device::new();
    let mut encoder = CommandEncoder::new();
    let mut globals = Globals::new(&device);

    globals.set_resolution(1920, 1080);
    globals.update_uniform(&device, &mut encoder);

    let staged = &encoder.recorded()[0].src.contents;
    let floats: [f32; 16] = [
        1.0 / 960.0,
        0.0,
        0.0,
        0.0,
        0.0,
        -1.0 / 540.0,
        0.0,
        0.0,
        0.0,
        0.0,
        1.0,
        0.0,
        -1.0,
        1.0,
        0.0,
        1.0,
    ];
    let expected: &[u8] = bytemuck::cast_slice(&floats);
    assert_eq!(staged.as_slice(), expected);
}
