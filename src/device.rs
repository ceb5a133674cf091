use vstd::prelude::*;

use crate::enums::{EnrollStatus, Fingerprint, VerifyStatus};
use crate::error::Error;

verus! {

/// The bus name the fingerprint daemon owns.
pub const SERVICE: &'static str = "net.reactivated.Fprint";

/// The interface of the daemon's manager object.
pub const MANAGER_INTERFACE: &'static str = "net.reactivated.Fprint.Manager";

/// The object path of the daemon's manager object.
pub const MANAGER_PATH: &'static str = "/net/reactivated/Fprint/Manager";

/// The interface of each device object.
pub const DEVICE_INTERFACE: &'static str = "net.reactivated.Fprint.Device";

/// The manager method that lists the device objects.
pub const METHOD_GET_DEVICES: &'static str = "GetDevices";

/// The manager method that names the default device object.
pub const METHOD_GET_DEFAULT_DEVICE: &'static str = "GetDefaultDevice";

/// The device property that holds its product name.
pub const PROPERTY_NAME: &'static str = "name";

/// The device property that holds the number of stages an enrollment takes.
pub const PROPERTY_NUM_ENROLL_STAGES: &'static str = "num-enroll-stages";

/// The device property that holds its scan type.
pub const PROPERTY_SCAN_TYPE: &'static str = "scan-type";

/// The device property that tells whether a finger is on the reader.
pub const PROPERTY_FINGER_PRESENT: &'static str = "finger-present";

/// The device property that tells whether the reader waits for a finger.
pub const PROPERTY_FINGER_NEEDED: &'static str = "finger-needed";

/// The device method that claims it for a user.
pub const METHOD_CLAIM: &'static str = "Claim";

/// The device method that gives up a claim.
pub const METHOD_RELEASE: &'static str = "Release";

/// The device method that starts a verification.
pub const METHOD_VERIFY_START: &'static str = "VerifyStart";

/// The device method that stops a verification.
pub const METHOD_VERIFY_STOP: &'static str = "VerifyStop";

/// The device method that starts an enrollment.
pub const METHOD_ENROLL_START: &'static str = "EnrollStart";

/// The device method that stops an enrollment.
pub const METHOD_ENROLL_STOP: &'static str = "EnrollStop";

/// The device method that lists a user's enrolled fingers.
pub const METHOD_LIST_ENROLLED_FINGERS: &'static str = "ListEnrolledFingers";

/// The device signal that names the finger a verification waits for.
pub const SIGNAL_VERIFY_FINGER_SELECTED: &'static str = "VerifyFingerSelected";

/// The device signal that reports a verification's progress.
pub const SIGNAL_VERIFY_STATUS: &'static str = "VerifyStatus";

/// The device signal that reports an enrollment's progress.
pub const SIGNAL_ENROLL_STATUS: &'static str = "EnrollStatus";

/// What the `num-enroll-stages` property holds while nobody has claimed the device.
pub const UNCLAIMED_ENROLL_STAGES: i32 = -1;

/// Reads the `num-enroll-stages` property: the number of stages an enrollment
/// takes, or `None` while the device is not claimed.
pub fn enroll_stages_from_raw(raw: i32) -> (r: Option<i32>)
    ensures
        r == (if raw == -1 { None } else { Some(raw) }),
{
    if raw == UNCLAIMED_ENROLL_STAGES {
        None
    } else {
        Some(raw)
    }
}

/// The user name sent with `Claim` and `ListEnrolledFingers`: the empty string,
/// which asks the daemon for the caller's own user, where none is given.
pub fn username_arg<'a>(username: Option<&'a str>) -> (r: &'a str)
    ensures
        r@ == (match username {
            Some(u) => u@,
            None => Seq::<char>::empty(),
        }),
{
    proof {
        reveal_strlit("");
    }
    match username {
        Some(u) => u,
        None => "",
    }
}

/// Whether `s` is the daemon's name of some finger.
pub open spec fn is_finger_name(s: Seq<char>) -> bool {
    exists|f: Fingerprint| #[trigger] f.spec_as_str() == s
}

/// Reads the reply of `ListEnrolledFingers`: each name becomes its finger, in
/// order; the first name that is no finger's makes the whole reply an error.
pub fn fingers_from_names(names: &Vec<String>) -> (r: Result<Vec<Fingerprint>, Error>)
    ensures
        match r {
            Ok(fingers) => fingers@.len() == names@.len() && forall|i: int|
                0 <= i < names@.len() ==> #[trigger] fingers@[i].spec_as_str() == names@[i]@,
            Err(e) => exists|i: int|
                0 <= i < names@.len() && !is_finger_name(#[trigger] names@[i]@) && (forall|j: int|
                    0 <= j < i ==> is_finger_name(#[trigger] names@[j]@)) && match e {
                    Error::InvalidFingerprint(t) => t@ == names@[i]@,
                    _ => false,
                },
        },
{
    let mut fingers: Vec<Fingerprint> = Vec::with_capacity(names.len());
    let mut i: usize = 0;
    while i < names.len()
        invariant
            0 <= i <= names@.len(),
            fingers@.len() == i,
            forall|j: int| 0 <= j < i ==> #[trigger] fingers@[j].spec_as_str() == names@[j]@,
        decreases names@.len() - i,
    {
        match Fingerprint::from_str(names[i].as_str()) {
            Ok(f) => fingers.push(f),
            Err(e) => {
                proof {
                    assert forall|j: int| 0 <= j < i implies is_finger_name(#[trigger] names@[j]@) by {
                        assert(fingers@[j].spec_as_str() == names@[j]@);
                    }
                    assert(!is_finger_name(names@[i as int]@));
                }
                return Err(e);
            },
        }
        i = i + 1;
    }
    Ok(fingers)
}

/// Reads a `VerifyFingerSelected` signal whose body decoded to `body`: the
/// finger it names, or `None` where the body did not decode or names no finger.
pub fn finger_selected_from_signal(body: Option<String>) -> (r: Option<Fingerprint>)
    ensures
        match body {
            None => r is None,
            Some(name) => match r {
                Some(f) => f.spec_as_str() == name@,
                None => !is_finger_name(name@),
            },
        },
{
    match body {
        None => None,
        Some(name) => match Fingerprint::from_str(name.as_str()) {
            Ok(f) => Some(f),
            Err(_) => None,
        },
    }
}

/// Whether `s` is the daemon's name of some verify status.
pub open spec fn is_verify_status_name(s: Seq<char>) -> bool {
    exists|v: VerifyStatus| #[trigger] v.spec_as_str() == s
}

/// Reads a `VerifyStatus` signal whose body decoded to `body`: the status and
/// whether the verification is done, or `None` where the body did not decode
/// or names no status.
pub fn verify_status_from_signal(body: Option<(String, bool)>) -> (r: Option<(VerifyStatus, bool)>)
    ensures
        match body {
            None => r is None,
            Some((status, done)) => match r {
                Some((v, d)) => v.spec_as_str() == status@ && d == done,
                None => !is_verify_status_name(status@),
            },
        },
{
    match body {
        None => None,
        Some((status, done)) => match VerifyStatus::from_str(status.as_str()) {
            Ok(v) => Some((v, done)),
            Err(_) => None,
        },
    }
}

/// Whether `s` is the daemon's name of some enroll status.
pub open spec fn is_enroll_status_name(s: Seq<char>) -> bool {
    exists|v: EnrollStatus| #[trigger] v.spec_as_str() == s
}

/// Reads an `EnrollStatus` signal whose body decoded to `body`: the status and
/// whether the enrollment is done, or `None` where the body did not decode
/// or names no status.
pub fn enroll_status_from_signal(body: Option<(String, bool)>) -> (r: Option<(EnrollStatus, bool)>)
    ensures
        match body {
            None => r is None,
            Some((status, done)) => match r {
                Some((v, d)) => v.spec_as_str() == status@ && d == done,
                None => !is_enroll_status_name(status@),
            },
        },
{
    match body {
        None => None,
        Some((status, done)) => match EnrollStatus::from_str(status.as_str()) {
            Ok(v) => Some((v, done)),
            Err(_) => None,
        },
    }
}

} // verus!
