use easypdf::document::{Document, Page, PageIndex, PageSize, Rotation};
use easypdf::error::Error;

fn doc(n: usize) -> Document {
    Document::from_pages(
        (0..n).map(|_| Page { size: PageSize::a4(), rotation: Rotation::Upright }).collect(),
    )
}

#[test]
fn rotation_normalizes_out_of_range_and_negative_values() {
    assert_eq!(Rotation::from_degrees(-90).unwrap(), Rotation::Clockwise270);
    assert_eq!(Rotation::from_degrees(450).unwrap(), Rotation::Clockwise90);
    assert_eq!(Rotation::from_degrees(0).unwrap(), Rotation::Upright);
}

#[test]
fn rotation_rejects_non_right_angles() {
    assert!(Rotation::from_degrees(45).is_err());
}

#[test]
fn rotation_composes() {
    assert_eq!(Rotation::Clockwise90.followed_by(Rotation::Clockwise270), Rotation::Upright);
    assert_eq!(Rotation::Clockwise90.followed_by(Rotation::Clockwise90), Rotation::Half);
}

#[test]
fn quarter_turns_swap_page_dimensions() {
    let landscape = PageSize::a4().rotated(Rotation::Clockwise90);
    assert_eq!(landscape.width_bits, PageSize::a4().height_bits);
    assert_eq!(landscape.height_bits, PageSize::a4().width_bits);
    assert_eq!(PageSize::a4().rotated(Rotation::Half), PageSize::a4());
}

#[test]
fn out_of_range_page_reports_both_numbers() {
    let err = doc(3).page(PageIndex(7)).unwrap_err();
    let msg = err.message();
    assert!(msg.contains('7'), "{msg}");
    assert!(msg.contains('3'), "{msg}");
}

#[test]
fn move_page_reorders_without_losing_pages() {
    let mut d = doc(4);
    d.page_mut(PageIndex(0)).unwrap().rotation = Rotation::Half;
    d.move_page(PageIndex(0), PageIndex(3)).unwrap();
    assert_eq!(d.page_count(), 4);
    assert_eq!(d.page(PageIndex(3)).unwrap().rotation, Rotation::Half);
}

#[test]
fn move_page_rejects_out_of_range_targets() {
    let mut d = doc(2);
    assert!(d.move_page(PageIndex(0), PageIndex(9)).is_err());
    assert_eq!(d.page_count(), 2, "failed move must not mutate the document");
}

#[test]
fn page_sizes_carry_exact_point_values() {
    assert_eq!(f32::from_bits(PageSize::a4().width_bits), 595.0);
    assert_eq!(f32::from_bits(PageSize::a4().height_bits), 842.0);
    assert_eq!(f32::from_bits(PageSize::letter().width_bits), 612.0);
    assert_eq!(f32::from_bits(PageSize::letter().height_bits), 792.0);
}

#[test]
fn rotation_refusal_names_the_normalized_value() {
    match Rotation::from_degrees(-45) {
        Err(Error::NotAPdf { reason }) => {
            assert_eq!(reason, "page rotation 315 is not a multiple of 90");
        }
        other => panic!("expected a refusal, got {other:?}"),
    }
    let err = Rotation::from_degrees(100).unwrap_err();
    assert_eq!(err.message(), "not a valid PDF document: page rotation 100 is not a multiple of 90");
}

#[test]
fn extreme_rotation_values_normalize() {
    assert_eq!(Rotation::from_degrees(i32::MIN).is_err(), (i32::MIN).rem_euclid(360) % 90 != 0);
    assert_eq!(Rotation::from_degrees(-720).unwrap(), Rotation::Upright);
    assert_eq!(Rotation::from_degrees(-180).unwrap(), Rotation::Half);
    assert_eq!(Rotation::from_degrees(990).unwrap(), Rotation::Clockwise270);
}

#[test]
fn rotations_form_a_group_on_concrete_values() {
    let all = [Rotation::Upright, Rotation::Clockwise90, Rotation::Half, Rotation::Clockwise270];
    for a in all {
        assert_eq!(a.followed_by(Rotation::Upright), a);
        let inverse = Rotation::from_degrees(-a.degrees()).unwrap();
        assert_eq!(a.followed_by(inverse), Rotation::Upright);
        for b in all {
            assert_eq!(a.followed_by(b), b.followed_by(a));
            for c in all {
                assert_eq!(a.followed_by(b).followed_by(c), a.followed_by(b.followed_by(c)));
            }
        }
        assert_eq!(Rotation::from_degrees(a.degrees()).unwrap(), a);
        assert_eq!(a.swaps_axes(), a.degrees() % 180 == 90);
    }
    assert_eq!(Rotation::default(), Rotation::Upright);
}

#[test]
fn moving_a_page_back_restores_the_order() {
    let mut d = doc(5);
    for (i, r) in [Rotation::Upright, Rotation::Clockwise90, Rotation::Half, Rotation::Clockwise270, Rotation::Half]
        .into_iter()
        .enumerate()
    {
        d.page_mut(PageIndex(i)).unwrap().rotation = r;
    }
    let before: Vec<Rotation> = (0..5).map(|i| d.page(PageIndex(i)).unwrap().rotation).collect();
    d.move_page(PageIndex(1), PageIndex(4)).unwrap();
    let moved: Vec<Rotation> = (0..5).map(|i| d.page(PageIndex(i)).unwrap().rotation).collect();
    assert_eq!(
        moved,
        vec![Rotation::Upright, Rotation::Half, Rotation::Clockwise270, Rotation::Half, Rotation::Clockwise90]
    );
    d.move_page(PageIndex(4), PageIndex(1)).unwrap();
    let back: Vec<Rotation> = (0..5).map(|i| d.page(PageIndex(i)).unwrap().rotation).collect();
    assert_eq!(back, before);
}

#[test]
fn a_bad_source_page_is_reported_before_the_target() {
    let mut d = doc(2);
    match d.move_page(PageIndex(5), PageIndex(9)) {
        Err(Error::PageOutOfRange { requested, total }) => {
            assert_eq!((requested, total), (5, 2));
        }
        other => panic!("expected PageOutOfRange, got {other:?}"),
    }
    match d.page_mut(PageIndex(2)) {
        Err(Error::PageOutOfRange { requested, total }) => assert_eq!((requested, total), (2, 2)),
        other => panic!("expected PageOutOfRange, got {other:?}"),
    }
}

#[test]
fn error_messages_name_what_failed() {
    assert_eq!(
        Error::PageOutOfRange { requested: 7, total: 3 }.message(),
        "page 7 is out of range (document has 3 pages)"
    );
    assert_eq!(
        Error::PasswordRequired.message(),
        "document is encrypted and requires a password"
    );
    assert_eq!(
        Error::LimitExceeded { limit: "max_pages", value: 100001, maximum: 100000 }.message(),
        "document exceeds the max_pages safety limit (100001 > 100000)"
    );
    assert_eq!(Error::Unsupported("XFA forms".to_owned()).message(), "unsupported: XFA forms");
    let io = Error::Io(std::io::Error::new(std::io::ErrorKind::Other, "disk on fire"));
    assert_eq!(io.message(), "i/o error: disk on fire");
    assert_eq!(
        Error::PageOutOfRange { requested: 0, total: 18446744073709551615 }.message(),
        "page 0 is out of range (document has 18446744073709551615 pages)"
    );
}

#[test]
fn an_empty_document_has_no_pages() {
    let d = Document::default();
    assert_eq!(d.page_count(), 0);
    assert!(d.page(PageIndex(0)).is_err());
}
