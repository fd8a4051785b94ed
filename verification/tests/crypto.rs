use easypdf::crypto::{Algorithm, SignatureLevel, Verification};
use easypdf::permissions::Permissions;

#[test]
fn only_aes256_may_be_written() {
    assert!(Algorithm::Aes256.can_write());
    for weak in [Algorithm::Rc4_40, Algorithm::Rc4_128, Algorithm::Aes128] {
        assert!(!weak.can_write(), "{weak:?} must not be writable");
    }
}

#[test]
fn all_algorithms_remain_readable() {
    for algorithm in [Algorithm::Rc4_40, Algorithm::Rc4_128, Algorithm::Aes128, Algorithm::Aes256] {
        assert!(algorithm.can_read());
    }
}

#[test]
fn rc4_is_flagged_as_broken() {
    assert!(Algorithm::Rc4_40.is_broken());
    assert!(Algorithm::Rc4_128.is_broken());
    assert!(!Algorithm::Aes256.is_broken());
}

#[test]
fn partial_coverage_triggers_a_warning_despite_valid_crypto() {
    let v = Verification {
        bytes_unmodified: true,
        covers_whole_document: false,
        chain_trusted: true,
        revocation_checked: true,
        timestamp_valid: true,
    };
    assert!(!v.fully_verified());
    assert!(v.needs_warning(), "partial coverage must warn the user");
}

#[test]
fn full_verification_requires_every_check() {
    let mut v = Verification {
        bytes_unmodified: true,
        covers_whole_document: true,
        chain_trusted: true,
        revocation_checked: true,
        timestamp_valid: true,
    };
    assert!(v.fully_verified());
    v.revocation_checked = false;
    assert!(!v.fully_verified());
}

#[test]
fn default_permits_everything() {
    let p = Permissions::default();
    assert!(p.print && p.modify && p.copy && p.annotate && p.assemble);
}

#[test]
fn accessibility_survives_maximum_restriction() {
    assert!(Permissions::restricted().accessibility);
}

#[test]
fn restricted_denies_the_rest() {
    let p = Permissions::restricted();
    assert!(!p.print && !p.modify && !p.copy && !p.assemble);
}

#[test]
fn no_broken_algorithm_is_writable_and_aes128_is_neither() {
    for algorithm in [Algorithm::Rc4_40, Algorithm::Rc4_128, Algorithm::Aes128, Algorithm::Aes256] {
        assert!(!(algorithm.is_broken() && algorithm.can_write()));
    }
    assert!(!Algorithm::Aes128.is_broken());
}

#[test]
fn a_warning_never_comes_with_full_verification() {
    for bits in 0..32u32 {
        let v = Verification {
            bytes_unmodified: bits & 1 != 0,
            covers_whole_document: bits & 2 != 0,
            chain_trusted: bits & 4 != 0,
            revocation_checked: bits & 8 != 0,
            timestamp_valid: bits & 16 != 0,
        };
        assert_eq!(v.fully_verified(), bits == 31);
        assert_eq!(v.needs_warning(), bits & 3 == 1);
        assert!(!(v.needs_warning() && v.fully_verified()));
    }
}

#[test]
fn restricted_keeps_only_accessibility() {
    let p = Permissions::restricted();
    assert!(!p.print_high_quality && !p.annotate && !p.fill_forms);
    let d = Permissions::default();
    assert!(d.print_high_quality && d.fill_forms && d.accessibility);
    assert!(SignatureLevel::BasicB < SignatureLevel::BasicT);
}
