//! A client for the fingerprint daemon's bus interface: the names of its
//! objects and members, the daemon's string constants as enums, its named
//! errors, and the decoding of its replies and signals.
use vstd::prelude::*;

pub mod device;
pub mod enums;
pub mod error;
pub mod text;

pub use device::{
    enroll_stages_from_raw, enroll_status_from_signal, finger_selected_from_signal,
    fingers_from_names, username_arg, verify_status_from_signal,
};
pub use enums::{EnrollStatus, Fingerprint, ScanType, VerifyStatus};
pub use error::{DBusError, Error};

verus! {

} // verus!
