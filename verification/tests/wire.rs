use easypdf::protocol::{ResourceLimits, SandboxStatus};
use easypdf::session::{RenderedPage, WorkerStatus};
use easypdf::wire::{bgra_to_rgba, decode_page, encode_page, HEADER_BYTES};

#[test]
fn bgra_becomes_rgba() {
    assert_eq!(bgra_to_rgba(vec![10, 20, 30, 40]), vec![30, 20, 10, 40]);
}

#[test]
fn conversion_leaves_green_and_alpha_in_place() {
    let converted = bgra_to_rgba(vec![1, 2, 3, 4, 5, 6, 7, 8]);
    assert_eq!(converted[1], 2);
    assert_eq!(converted[3], 4);
    assert_eq!(converted[5], 6);
    assert_eq!(converted[7], 8);
}

#[test]
fn conversion_is_its_own_inverse() {
    let bytes = vec![9, 8, 7, 6, 5, 4, 3, 2];
    assert_eq!(bgra_to_rgba(bgra_to_rgba(bytes.clone())), bytes);
}

#[test]
fn pages_round_trip_through_the_wire_format() {
    let pixels: Vec<u8> = (0..(3 * 2 * 4)).map(|n| n as u8).collect();
    let encoded = encode_page(3, 2, &pixels);

    let decoded = decode_page(&encoded).expect("round trip should succeed");
    assert_eq!(decoded.width, 3);
    assert_eq!(decoded.height, 2);
    assert_eq!(decoded.pixels, pixels);
}

#[test]
fn short_buffer_is_rejected() {
    assert!(decode_page(&[1, 2, 3]).is_none());
}

#[test]
fn length_contradicting_the_header_is_rejected() {
    let mut encoded = encode_page(100, 100, &[0; 40_000]);
    encoded.truncate(HEADER_BYTES + 10);
    assert!(decode_page(&encoded).is_none());
}

#[test]
fn wire_dimension_overflow_is_rejected_rather_than_wrapping() {
    let encoded = encode_page(u32::MAX, u32::MAX, &[0; 4]);
    assert!(decode_page(&encoded).is_none());
}

#[test]
fn the_header_is_little_endian_width_then_height() {
    let encoded = encode_page(0x0102_0304, 0x0a0b_0c0d, &[0xee]);
    assert_eq!(encoded, vec![4, 3, 2, 1, 0x0d, 0x0c, 0x0b, 0x0a, 0xee]);
}

#[test]
fn a_trailing_partial_pixel_is_left_alone() {
    assert_eq!(bgra_to_rgba(vec![1, 2, 3, 4, 5, 6, 7]), vec![3, 2, 1, 4, 5, 6, 7]);
    assert_eq!(bgra_to_rgba(Vec::new()), Vec::<u8>::new());
}

#[test]
fn an_empty_page_round_trips() {
    let encoded = encode_page(0, 5, &[]);
    assert_eq!(encoded.len(), HEADER_BYTES);
    let decoded = decode_page(&encoded).unwrap();
    assert_eq!((decoded.width, decoded.height, decoded.pixels.len()), (0, 5, 0));
}

#[test]
fn a_rendered_page_packs_into_the_wire_format() {
    let page = RenderedPage { width: 1, height: 1, pixels: vec![9, 8, 7, 6] };
    let wire = page.into_wire_format();
    assert_eq!(wire, vec![1, 0, 0, 0, 1, 0, 0, 0, 9, 8, 7, 6]);
    let tile = decode_page(&wire).unwrap();
    assert_eq!(tile.pixels, vec![9, 8, 7, 6]);
}

#[test]
fn worker_status_tells_the_user_about_confinement() {
    let confined = SandboxStatus::Enforced {
        mechanism: "seatbelt".to_owned(),
        resource_limits: ResourceLimits::from_outcomes(true, true, false),
    };
    let status = WorkerStatus::of_running(&confined, true);
    assert!(status.running && status.sandboxed && status.engine_available);
    assert_eq!(status.detail, "confined via seatbelt");
    assert!(!status.memory_capped);

    let open = SandboxStatus::NotEnforced {
        reason: "linux confinement not yet implemented".to_owned(),
        resource_limits: ResourceLimits::from_outcomes(true, true, true),
    };
    let status = WorkerStatus::of_running(&open, false);
    assert!(status.running && !status.sandboxed && status.memory_capped);
    assert_eq!(status.detail, "UNCONFINED: linux confinement not yet implemented");

    let missing = WorkerStatus::not_running("could not locate the worker executable".to_owned());
    assert!(!missing.running && !missing.sandboxed && !missing.engine_available);
}
