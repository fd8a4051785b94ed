use easypdf::protocol::{ResourceLimits, Response, SandboxStatus, WorkerError, MAX_ADDRESS_SPACE, MAX_CPU_SECONDS};

#[test]
fn well_formed_render_response_is_accepted() {
    let response = Response::PageRendered { width: 2, height: 3, pixels: vec![0; 24] };
    assert!(response.is_self_consistent());
}

#[test]
fn pixel_buffer_shorter_than_declared_size_is_rejected() {
    let response = Response::PageRendered { width: 100, height: 100, pixels: vec![0; 10] };
    assert!(!response.is_self_consistent());
}

#[test]
fn protocol_dimension_overflow_is_rejected_rather_than_wrapping() {
    let response = Response::PageRendered { width: u32::MAX, height: u32::MAX, pixels: vec![0; 4] };
    assert!(!response.is_self_consistent());
}

#[test]
fn responses_without_pixels_are_always_consistent() {
    assert!(Response::Done.is_self_consistent());
    assert!(Response::Failed(WorkerError::WorkerDied).is_self_consistent());
    assert!(Response::TextExtracted { text: "Hello".to_owned() }.is_self_consistent());
    assert!(
        Response::DocumentOpened { page_count: 3, encrypted: false, signed: false }.is_self_consistent()
    );
    let longer = Response::PageRendered { width: 1, height: 1, pixels: vec![0; 5] };
    assert!(!longer.is_self_consistent());
    let empty = Response::PageRendered { width: 0, height: 7, pixels: Vec::new() };
    assert!(empty.is_self_consistent());
}

#[test]
fn sandbox_status_reports_what_was_applied() {
    let limits = ResourceLimits::from_outcomes(true, true, false);
    assert!(limits.core_dumps_disabled);
    assert_eq!(limits.cpu_seconds, Some(MAX_CPU_SECONDS));
    assert!(!limits.memory_capped());
    let capped = ResourceLimits::from_outcomes(false, false, true);
    assert_eq!(capped.address_space_bytes, Some(MAX_ADDRESS_SPACE));
    assert!(capped.memory_capped());
    assert_eq!(MAX_ADDRESS_SPACE, 4 * 1024 * 1024 * 1024);

    let enforced = SandboxStatus::from_outcome(limits, Ok("seatbelt".to_owned()));
    assert!(enforced.is_enforced());
    let open = SandboxStatus::from_outcome(ResourceLimits::none(), Err("no landlock".to_owned()));
    assert!(!open.is_enforced());
    match open {
        SandboxStatus::NotEnforced { reason, resource_limits } => {
            assert_eq!(reason, "no landlock");
            assert_eq!(resource_limits, ResourceLimits::none());
        }
        other => panic!("unexpected {other:?}"),
    }
}
