use fingerprint_reader::{EnrollStatus, Error, Fingerprint, ScanType, VerifyStatus};
use std::str::FromStr;

#[test]
fn scan_type_names_round_trip() {
    for (name, ty) in [("press", ScanType::Press), ("swipe", ScanType::Swipe)] {
        assert_eq!(ScanType::from_str(name).unwrap(), ty);
        assert_eq!(ty.as_str(), name);
    }
}

#[test]
fn scan_type_unknown_name_fails() {
    match ScanType::from_str("Press") {
        Err(Error::InvalidScanType(s)) => assert_eq!(s, "Press"),
        other => panic!("unexpected {:?}", other),
    }
    assert!(matches!(ScanType::from_str(""), Err(Error::InvalidScanType(_))));
}

#[test]
fn scan_type_parses_through_from_str_trait() {
    let ty: ScanType = "swipe".parse().unwrap();
    assert_eq!(ty, ScanType::Swipe);
    assert!("swiped".parse::<ScanType>().is_err());
}

#[test]
fn fingerprint_names_round_trip() {
    let all = [
        ("left-thumb", Fingerprint::LeftThumb),
        ("left-index-finger", Fingerprint::LeftIndexFinger),
        ("left-middle-finger", Fingerprint::LeftMiddleFinger),
        ("left-ring-finger", Fingerprint::LeftRingFinger),
        ("left-little-finger", Fingerprint::LeftLittleFinger),
        ("right-thumb", Fingerprint::RightThumb),
        ("right-index-finger", Fingerprint::RightIndexFinger),
        ("right-middle-finger", Fingerprint::RightMiddleFinger),
        ("right-ring-finger", Fingerprint::RightRingFinger),
        ("right-little-finger", Fingerprint::RightLittleFinger),
        ("any", Fingerprint::Any),
    ];
    for (name, finger) in all {
        assert_eq!(Fingerprint::from_str(name).unwrap(), finger);
        assert_eq!(finger.as_str(), name);
        assert_eq!(Fingerprint::from_str(finger.as_str()).unwrap(), finger);
    }
}

#[test]
fn fingerprint_unknown_name_fails() {
    match Fingerprint::from_str("left-toe") {
        Err(Error::InvalidFingerprint(s)) => assert_eq!(s, "left-toe"),
        other => panic!("unexpected {:?}", other),
    }
    assert!(Fingerprint::from_str("left-thumb ").is_err());
    assert!(Fingerprint::from_str("LEFT-THUMB").is_err());
}

#[test]
fn verify_status_names_round_trip() {
    let all = [
        ("verify-no-match", VerifyStatus::NoMatch),
        ("verify-match", VerifyStatus::Match),
        ("verify-retry-scan", VerifyStatus::RetryScan),
        ("verify-swipe-too-short", VerifyStatus::SwipeTooShort),
        ("verify-finger-not-centered", VerifyStatus::FingerNotCentered),
        ("verify-remove-and-retry", VerifyStatus::RemoveAndRetry),
        ("verify-disconnected", VerifyStatus::Disconnected),
        ("verify-unknown-error", VerifyStatus::Unknown),
    ];
    for (name, status) in all {
        assert_eq!(VerifyStatus::from_str(name).unwrap(), status);
        assert_eq!(status.as_str(), name);
    }
}

#[test]
fn verify_status_unknown_name_fails() {
    match VerifyStatus::from_str("enroll-completed") {
        Err(Error::InvalidVerifyStatus(s)) => assert_eq!(s, "enroll-completed"),
        other => panic!("unexpected {:?}", other),
    }
}

#[test]
fn enroll_status_names_round_trip() {
    let all = [
        ("enroll-completed", EnrollStatus::Completed),
        ("enroll-failed", EnrollStatus::Failed),
        ("enroll-stage-passed", EnrollStatus::StagePassed),
        ("enroll-retry-scan", EnrollStatus::RetryScan),
        ("enroll-swipe-too-short", EnrollStatus::SwipeTooShort),
        ("enroll-finger-not-centered", EnrollStatus::FingerNotCentered),
        ("enroll-remove-and-retry", EnrollStatus::RemoveAndRetry),
        ("enroll-data-full", EnrollStatus::DataFull),
        ("enroll-duplicate", EnrollStatus::Duplicate),
        ("enroll-disconnected", EnrollStatus::Disconnected),
        ("enroll-unknown-error", EnrollStatus::Unknown),
    ];
    for (name, status) in all {
        assert_eq!(EnrollStatus::from_str(name).unwrap(), status);
        assert_eq!(status.as_str(), name);
    }
}

#[test]
fn enroll_status_unknown_name_fails() {
    match EnrollStatus::from_str("verify-match") {
        Err(Error::InvalidEnrollStatus(s)) => assert_eq!(s, "verify-match"),
        other => panic!("unexpected {:?}", other),
    }
}
