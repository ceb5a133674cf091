use fingerprint_reader::device::{
    DEVICE_INTERFACE, MANAGER_INTERFACE, MANAGER_PATH, METHOD_CLAIM, METHOD_ENROLL_START,
    METHOD_ENROLL_STOP, METHOD_GET_DEFAULT_DEVICE, METHOD_GET_DEVICES,
    METHOD_LIST_ENROLLED_FINGERS, METHOD_RELEASE, METHOD_VERIFY_START, METHOD_VERIFY_STOP,
    PROPERTY_FINGER_NEEDED, PROPERTY_FINGER_PRESENT, PROPERTY_NAME, PROPERTY_NUM_ENROLL_STAGES,
    PROPERTY_SCAN_TYPE, SERVICE, SIGNAL_ENROLL_STATUS, SIGNAL_VERIFY_FINGER_SELECTED,
    SIGNAL_VERIFY_STATUS,
};
use fingerprint_reader::{
    enroll_stages_from_raw, enroll_status_from_signal, finger_selected_from_signal,
    fingers_from_names, username_arg, verify_status_from_signal, EnrollStatus, Error,
    Fingerprint, VerifyStatus,
};

#[test]
fn unclaimed_enroll_stages_is_none() {
    assert_eq!(enroll_stages_from_raw(-1), None);
    assert_eq!(enroll_stages_from_raw(0), Some(0));
    assert_eq!(enroll_stages_from_raw(5), Some(5));
    assert_eq!(enroll_stages_from_raw(-2), Some(-2));
    assert_eq!(enroll_stages_from_raw(i32::MAX), Some(i32::MAX));
}

#[test]
fn username_defaults_to_empty() {
    assert_eq!(username_arg(None), "");
    assert_eq!(username_arg(Some("alice")), "alice");
}

#[test]
fn enrolled_fingers_parse_in_order() {
    let names = vec!["right-index-finger".to_string(), "left-thumb".to_string()];
    let fingers = fingers_from_names(&names).unwrap();
    assert_eq!(fingers, vec![Fingerprint::RightIndexFinger, Fingerprint::LeftThumb]);
    assert_eq!(fingers_from_names(&Vec::new()).unwrap(), Vec::new());
}

#[test]
fn enrolled_fingers_report_first_unknown_name() {
    let names = vec![
        "any".to_string(),
        "left-toe".to_string(),
        "right-toe".to_string(),
    ];
    match fingers_from_names(&names) {
        Err(Error::InvalidFingerprint(s)) => assert_eq!(s, "left-toe"),
        other => panic!("unexpected {:?}", other),
    }
}

#[test]
fn finger_selected_signal_filters_unknown() {
    assert_eq!(
        finger_selected_from_signal(Some("right-thumb".to_string())),
        Some(Fingerprint::RightThumb)
    );
    assert_eq!(finger_selected_from_signal(Some("thumb".to_string())), None);
    assert_eq!(finger_selected_from_signal(None), None);
}

#[test]
fn verify_status_signal_keeps_done_flag() {
    assert_eq!(
        verify_status_from_signal(Some(("verify-match".to_string(), true))),
        Some((VerifyStatus::Match, true))
    );
    assert_eq!(
        verify_status_from_signal(Some(("verify-retry-scan".to_string(), false))),
        Some((VerifyStatus::RetryScan, false))
    );
    assert_eq!(verify_status_from_signal(Some(("match".to_string(), true))), None);
    assert_eq!(verify_status_from_signal(None), None);
}

#[test]
fn enroll_status_signal_keeps_done_flag() {
    assert_eq!(
        enroll_status_from_signal(Some(("enroll-stage-passed".to_string(), false))),
        Some((EnrollStatus::StagePassed, false))
    );
    assert_eq!(
        enroll_status_from_signal(Some(("enroll-completed".to_string(), true))),
        Some((EnrollStatus::Completed, true))
    );
    assert_eq!(enroll_status_from_signal(Some(("verify-match".to_string(), true))), None);
    assert_eq!(enroll_status_from_signal(None), None);
}

#[test]
fn interface_names_match_daemon() {
    assert_eq!(SERVICE, "net.reactivated.Fprint");
    assert_eq!(MANAGER_INTERFACE, "net.reactivated.Fprint.Manager");
    assert_eq!(MANAGER_PATH, "/net/reactivated/Fprint/Manager");
    assert_eq!(DEVICE_INTERFACE, "net.reactivated.Fprint.Device");
}

#[test]
fn member_names_match_daemon() {
    assert_eq!(METHOD_GET_DEVICES, "GetDevices");
    assert_eq!(METHOD_GET_DEFAULT_DEVICE, "GetDefaultDevice");
    assert_eq!(PROPERTY_NAME, "name");
    assert_eq!(PROPERTY_NUM_ENROLL_STAGES, "num-enroll-stages");
    assert_eq!(PROPERTY_SCAN_TYPE, "scan-type");
    assert_eq!(PROPERTY_FINGER_PRESENT, "finger-present");
    assert_eq!(PROPERTY_FINGER_NEEDED, "finger-needed");
    assert_eq!(METHOD_CLAIM, "Claim");
    assert_eq!(METHOD_RELEASE, "Release");
    assert_eq!(METHOD_VERIFY_START, "VerifyStart");
    assert_eq!(METHOD_VERIFY_STOP, "VerifyStop");
    assert_eq!(METHOD_ENROLL_START, "EnrollStart");
    assert_eq!(METHOD_ENROLL_STOP, "EnrollStop");
    assert_eq!(METHOD_LIST_ENROLLED_FINGERS, "ListEnrolledFingers");
    assert_eq!(SIGNAL_VERIFY_FINGER_SELECTED, "VerifyFingerSelected");
    assert_eq!(SIGNAL_VERIFY_STATUS, "VerifyStatus");
    assert_eq!(SIGNAL_ENROLL_STATUS, "EnrollStatus");
}
