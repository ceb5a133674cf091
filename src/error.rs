use vstd::prelude::*;

use crate::text::str_eq;
use zbus::Error as BusError;

verus! {

/// Declares zbus::Error, which a bus failure carries through unopened.
#[verifier::external_type_specification]
#[verifier::external_body]
pub struct ExBusError(BusError);

/// Errors that the fingerprint daemon names on the bus, under the
/// `net.reactivated.Fprint.Error` namespace, plus any other bus failure.
#[derive(Debug)]
pub enum DBusError {
    /// A failure of the bus itself, or an error reply the daemon does not name.
    ZBus(BusError),
    /// Fingerprint is not deleted from the daemon's storage
    PrintsNotDeleted,
    /// Finger name is invalid
    InvalidFingername,
    /// The device was not claimed
    ClaimDevice,
    /// No ongoing verification
    NoActionInProgress,
    /// The chosen user doesn't have the requested fingerprint enrolled
    NoEnrolledPrints,
    /// The caller lacks the appropriate PolicyKit authorization
    PermissionDenied,
    /// The device was already being used
    AlreadyInUse,
    /// An internal error
    Internal,
}

/// Every error this library hands back.
#[derive(Debug)]
pub enum Error {
    DBus(DBusError),
    InvalidScanType(String),
    InvalidFingerprint(String),
    InvalidVerifyStatus(String),
    InvalidEnrollStatus(String),
}

impl DBusError {
    /// The fully qualified bus error name of each variant.
    pub open spec fn spec_name(&self) -> Seq<char> {
        match self {
            DBusError::ZBus(_) => "org.freedesktop.zbus.Error"@,
            DBusError::PrintsNotDeleted => "net.reactivated.Fprint.Error.PrintsNotDeleted"@,
            DBusError::InvalidFingername => "net.reactivated.Fprint.Error.InvalidFingername"@,
            DBusError::ClaimDevice => "net.reactivated.Fprint.Error.ClaimDevice"@,
            DBusError::NoActionInProgress => "net.reactivated.Fprint.Error.NoActionInProgress"@,
            DBusError::NoEnrolledPrints => "net.reactivated.Fprint.Error.NoEnrolledPrints"@,
            DBusError::PermissionDenied => "net.reactivated.Fprint.Error.PermissionDenied"@,
            DBusError::AlreadyInUse => "net.reactivated.Fprint.Error.AlreadyInUse"@,
            DBusError::Internal => "net.reactivated.Fprint.Error.Internal"@,
        }
    }

    /// Whether this is one of the errors the daemon names itself.
    pub open spec fn is_daemon_error(&self) -> bool {
        !(self is ZBus)
    }

    /// The fully qualified bus error name of this error.
    pub fn name(&self) -> (r: &'static str)
        ensures
            r@ == self.spec_name(),
    {
        match self {
            DBusError::ZBus(_) => "org.freedesktop.zbus.Error",
            DBusError::PrintsNotDeleted => "net.reactivated.Fprint.Error.PrintsNotDeleted",
            DBusError::InvalidFingername => "net.reactivated.Fprint.Error.InvalidFingername",
            DBusError::ClaimDevice => "net.reactivated.Fprint.Error.ClaimDevice",
            DBusError::NoActionInProgress => "net.reactivated.Fprint.Error.NoActionInProgress",
            DBusError::NoEnrolledPrints => "net.reactivated.Fprint.Error.NoEnrolledPrints",
            DBusError::PermissionDenied => "net.reactivated.Fprint.Error.PermissionDenied",
            DBusError::AlreadyInUse => "net.reactivated.Fprint.Error.AlreadyInUse",
            DBusError::Internal => "net.reactivated.Fprint.Error.Internal",
        }
    }
    /// The error that a bus error named `name` stands for: one of the daemon's
    /// own where `name` is its name, else `e` itself, kept as a bus failure.
    pub fn from_method_error(name: Option<&str>, e: BusError) -> (r: DBusError)
        ensures
            r.is_daemon_error() ==> (name matches Some(n) && r.spec_name() == n@),
            !r.is_daemon_error() ==> r == DBusError::ZBus(e),
            !r.is_daemon_error() ==> (name matches Some(n) ==> forall|v: DBusError|
                v.is_daemon_error() ==> #[trigger] v.spec_name() != n@),
    {
        match name {
            None => DBusError::ZBus(e),
            Some(n) => {
                if str_eq(n, "net.reactivated.Fprint.Error.PrintsNotDeleted") {
                    DBusError::PrintsNotDeleted
                } else if str_eq(n, "net.reactivated.Fprint.Error.InvalidFingername") {
                    DBusError::InvalidFingername
                } else if str_eq(n, "net.reactivated.Fprint.Error.ClaimDevice") {
                    DBusError::ClaimDevice
                } else if str_eq(n, "net.reactivated.Fprint.Error.NoActionInProgress") {
                    DBusError::NoActionInProgress
                } else if str_eq(n, "net.reactivated.Fprint.Error.NoEnrolledPrints") {
                    DBusError::NoEnrolledPrints
                } else if str_eq(n, "net.reactivated.Fprint.Error.PermissionDenied") {
                    DBusError::PermissionDenied
                } else if str_eq(n, "net.reactivated.Fprint.Error.AlreadyInUse") {
                    DBusError::AlreadyInUse
                } else if str_eq(n, "net.reactivated.Fprint.Error.Internal") {
                    DBusError::Internal
                } else {
                    DBusError::ZBus(e)
                }
            },
        }
    }

    /// Sorts a bus failure into the daemon's named errors, by the name of the
    /// error reply it carries.
    pub fn from_zbus(e: BusError) -> (r: DBusError)
        ensures
            !r.is_daemon_error() ==> r == DBusError::ZBus(e),
            error_reply_name(e) is None ==> r == DBusError::ZBus(e),
            error_reply_name(e) matches Some(n) ==> (r.is_daemon_error() ==> r.spec_name() == n),
            error_reply_name(e) matches Some(n) ==> (!r.is_daemon_error() ==> forall|v: DBusError|
                v.is_daemon_error() ==> #[trigger] v.spec_name() != n),
    {
        let name = method_error_name(&e);
        match name {
            Some(n) => DBusError::from_method_error(Some(n.as_str()), e),
            None => DBusError::from_method_error(None, e),
        }
    }
}

/// The error name that a bus failure carries, where it is an error reply.
pub uninterp spec fn error_reply_name(e: BusError) -> Option<Seq<char>>;

/// Relies on zbus::Error::MethodError, the variant that carries an error reply,
/// and on the Display of its OwnedErrorName: the reply's error name, if `e` is one.
#[verifier::external_body]
fn method_error_name(e: &BusError) -> (r: Option<String>)
    ensures
        match r {
            Some(s) => error_reply_name(*e) == Some(s@),
            None => error_reply_name(*e) is None,
        },
{
    match e {
        BusError::MethodError(name, _, _) => Some(name.to_string()),
        _ => None,
    }
}

/// Error names tell errors apart: two errors with one name are both bus
/// failures, or are the same daemon error. So a daemon error's name maps back
/// to it.
pub proof fn lemma_dbus_error_names_distinct(a: DBusError, b: DBusError)
    ensures
        a.spec_name() == b.spec_name() ==> a.is_daemon_error() == b.is_daemon_error(),
        a.spec_name() == b.spec_name() && a.is_daemon_error() ==> a == b,
{
    reveal_strlit("net.reactivated.Fprint.Error.PrintsNotDeleted");
    reveal_strlit("net.reactivated.Fprint.Error.InvalidFingername");
    reveal_strlit("net.reactivated.Fprint.Error.ClaimDevice");
    reveal_strlit("net.reactivated.Fprint.Error.NoActionInProgress");
    reveal_strlit("net.reactivated.Fprint.Error.NoEnrolledPrints");
    reveal_strlit("net.reactivated.Fprint.Error.PermissionDenied");
    reveal_strlit("net.reactivated.Fprint.Error.AlreadyInUse");
    reveal_strlit("net.reactivated.Fprint.Error.Internal");
    reveal_strlit("org.freedesktop.zbus.Error");
    assert("net.reactivated.Fprint.Error.PrintsNotDeleted"@.len() == 45 && "net.reactivated.Fprint.Error.PrintsNotDeleted"@[29] == 'P' && "net.reactivated.Fprint.Error.PrintsNotDeleted"@[30] == 'r');
    assert("net.reactivated.Fprint.Error.InvalidFingername"@.len() == 46 && "net.reactivated.Fprint.Error.InvalidFingername"@[29] == 'I' && "net.reactivated.Fprint.Error.InvalidFingername"@[30] == 'n');
    assert("net.reactivated.Fprint.Error.ClaimDevice"@.len() == 40 && "net.reactivated.Fprint.Error.ClaimDevice"@[29] == 'C' && "net.reactivated.Fprint.Error.ClaimDevice"@[30] == 'l');
    assert("net.reactivated.Fprint.Error.NoActionInProgress"@.len() == 47 && "net.reactivated.Fprint.Error.NoActionInProgress"@[29] == 'N' && "net.reactivated.Fprint.Error.NoActionInProgress"@[30] == 'o');
    assert("net.reactivated.Fprint.Error.NoEnrolledPrints"@.len() == 45 && "net.reactivated.Fprint.Error.NoEnrolledPrints"@[29] == 'N' && "net.reactivated.Fprint.Error.NoEnrolledPrints"@[30] == 'o');
    assert("net.reactivated.Fprint.Error.PermissionDenied"@.len() == 45 && "net.reactivated.Fprint.Error.PermissionDenied"@[29] == 'P' && "net.reactivated.Fprint.Error.PermissionDenied"@[30] == 'e');
    assert("net.reactivated.Fprint.Error.AlreadyInUse"@.len() == 41 && "net.reactivated.Fprint.Error.AlreadyInUse"@[29] == 'A' && "net.reactivated.Fprint.Error.AlreadyInUse"@[30] == 'l');
    assert("net.reactivated.Fprint.Error.Internal"@.len() == 37 && "net.reactivated.Fprint.Error.Internal"@[29] == 'I' && "net.reactivated.Fprint.Error.Internal"@[30] == 'n');
    assert("org.freedesktop.zbus.Error"@.len() == 26);
}

impl From<DBusError> for Error {
    fn from(value: DBusError) -> Error {
        Error::DBus(value)
    }
}

impl vstd::std_specs::convert::FromSpecImpl<DBusError> for Error {
    open spec fn obeys_from_spec() -> bool {
        true
    }

    open spec fn from_spec(v: DBusError) -> Error {
        Error::DBus(v)
    }
}

impl From<BusError> for Error {
    fn from(value: BusError) -> Error {
        Error::DBus(DBusError::ZBus(value))
    }
}

impl vstd::std_specs::convert::FromSpecImpl<BusError> for Error {
    open spec fn obeys_from_spec() -> bool {
        true
    }

    open spec fn from_spec(v: BusError) -> Error {
        Error::DBus(DBusError::ZBus(v))
    }
}

} // verus!
