use vstd::prelude::*;

use crate::error::Error;
use crate::text::str_eq;

verus! {

/// How a reader takes a print: the finger rests on it, or is swiped across it.
#[derive(Debug, Copy, Clone, PartialEq, Eq, Structural, PartialOrd, Ord)]
pub enum ScanType {
    Press,
    Swipe,
}

impl ScanType {
    /// The daemon's name for each scan type.
    pub open spec fn spec_as_str(self) -> Seq<char> {
        match self {
            ScanType::Press => "press"@,
            ScanType::Swipe => "swipe"@,
        }
    }

    /// The name the daemon uses for this scan type.
    pub fn as_str(&self) -> (r: &'static str)
        ensures
            r@ == self.spec_as_str(),
    {
        match self {
            ScanType::Press => "press",
            ScanType::Swipe => "swipe",
        }
    }

    /// Parses the daemon's name of a scan type; any other string is refused.
    pub fn from_str(s: &str) -> (r: Result<ScanType, Error>)
        ensures
            match r {
                Ok(v) => v.spec_as_str() == s@,
                Err(e) => (forall|v: ScanType| #[trigger] v.spec_as_str() != s@) && match e {
                    Error::InvalidScanType(t) => t@ == s@,
                    _ => false,
                },
            },
    {
        if str_eq(s, "press") {
            Ok(ScanType::Press)
        } else if str_eq(s, "swipe") {
            Ok(ScanType::Swipe)
        } else {
            Err(Error::InvalidScanType(s.to_owned()))
        }
    }
}

impl std::str::FromStr for ScanType {
    type Err = Error;

    fn from_str(s: &str) -> Result<ScanType, Error> {
        ScanType::from_str(s)
    }
}

/// Distinct scan types have distinct names, so a name parses back to the
/// scan type it was printed from.
pub proof fn lemma_scan_type_names_distinct(a: ScanType, b: ScanType)
    ensures
        a.spec_as_str() == b.spec_as_str() ==> a == b,
{
    reveal_strlit("press");
    reveal_strlit("swipe");
    assert("press"@.len() == 5 && "press"@[0] == 'p');
    assert("swipe"@.len() == 5 && "swipe"@[0] == 's');
}

/// Which finger a print belongs to.
#[derive(Debug, Copy, Clone, PartialEq, Eq, Structural, PartialOrd, Ord)]
pub enum Fingerprint {
    /// Left thumb
    LeftThumb,
    /// Left index finger
    LeftIndexFinger,
    /// Left middle finger
    LeftMiddleFinger,
    /// Left ring finger
    LeftRingFinger,
    /// Left little finger
    LeftLittleFinger,
    /// Right thumb
    RightThumb,
    /// Right index finger
    RightIndexFinger,
    /// Right middle finger
    RightMiddleFinger,
    /// Right ring finger
    RightRingFinger,
    /// Right little finger
    RightLittleFinger,
    /// Any finger
    Any,
}

impl Fingerprint {
    /// The daemon's name for each finger.
    pub open spec fn spec_as_str(self) -> Seq<char> {
        match self {
            Fingerprint::LeftThumb => "left-thumb"@,
            Fingerprint::LeftIndexFinger => "left-index-finger"@,
            Fingerprint::LeftMiddleFinger => "left-middle-finger"@,
            Fingerprint::LeftRingFinger => "left-ring-finger"@,
            Fingerprint::LeftLittleFinger => "left-little-finger"@,
            Fingerprint::RightThumb => "right-thumb"@,
            Fingerprint::RightIndexFinger => "right-index-finger"@,
            Fingerprint::RightMiddleFinger => "right-middle-finger"@,
            Fingerprint::RightRingFinger => "right-ring-finger"@,
            Fingerprint::RightLittleFinger => "right-little-finger"@,
            Fingerprint::Any => "any"@,
        }
    }

    /// The name the daemon uses for this finger.
    pub fn as_str(&self) -> (r: &'static str)
        ensures
            r@ == self.spec_as_str(),
    {
        match self {
            Fingerprint::LeftThumb => "left-thumb",
            Fingerprint::LeftIndexFinger => "left-index-finger",
            Fingerprint::LeftMiddleFinger => "left-middle-finger",
            Fingerprint::LeftRingFinger => "left-ring-finger",
            Fingerprint::LeftLittleFinger => "left-little-finger",
            Fingerprint::RightThumb => "right-thumb",
            Fingerprint::RightIndexFinger => "right-index-finger",
            Fingerprint::RightMiddleFinger => "right-middle-finger",
            Fingerprint::RightRingFinger => "right-ring-finger",
            Fingerprint::RightLittleFinger => "right-little-finger",
            Fingerprint::Any => "any",
        }
    }

    /// Parses the daemon's name of a finger; any other string is refused.
    pub fn from_str(s: &str) -> (r: Result<Fingerprint, Error>)
        ensures
            match r {
                Ok(v) => v.spec_as_str() == s@,
                Err(e) => (forall|v: Fingerprint| #[trigger] v.spec_as_str() != s@) && match e {
                    Error::InvalidFingerprint(t) => t@ == s@,
                    _ => false,
                },
            },
    {
        if str_eq(s, "left-thumb") {
            Ok(Fingerprint::LeftThumb)
        } else if str_eq(s, "left-index-finger") {
            Ok(Fingerprint::LeftIndexFinger)
        } else if str_eq(s, "left-middle-finger") {
            Ok(Fingerprint::LeftMiddleFinger)
        } else if str_eq(s, "left-ring-finger") {
            Ok(Fingerprint::LeftRingFinger)
        } else if str_eq(s, "left-little-finger") {
            Ok(Fingerprint::LeftLittleFinger)
        } else if str_eq(s, "right-thumb") {
            Ok(Fingerprint::RightThumb)
        } else if str_eq(s, "right-index-finger") {
            Ok(Fingerprint::RightIndexFinger)
        } else if str_eq(s, "right-middle-finger") {
            Ok(Fingerprint::RightMiddleFinger)
        } else if str_eq(s, "right-ring-finger") {
            Ok(Fingerprint::RightRingFinger)
        } else if str_eq(s, "right-little-finger") {
            Ok(Fingerprint::RightLittleFinger)
        } else if str_eq(s, "any") {
            Ok(Fingerprint::Any)
        } else {
            Err(Error::InvalidFingerprint(s.to_owned()))
        }
    }
}

impl std::str::FromStr for Fingerprint {
    type Err = Error;

    fn from_str(s: &str) -> Result<Fingerprint, Error> {
        Fingerprint::from_str(s)
    }
}

/// Distinct fingers have distinct names, so a name parses back to the
/// finger it was printed from.
pub proof fn lemma_fingerprint_names_distinct(a: Fingerprint, b: Fingerprint)
    ensures
        a.spec_as_str() == b.spec_as_str() ==> a == b,
{
    reveal_strlit("left-thumb");
    reveal_strlit("left-index-finger");
    reveal_strlit("left-middle-finger");
    reveal_strlit("left-ring-finger");
    reveal_strlit("left-little-finger");
    reveal_strlit("right-thumb");
    reveal_strlit("right-index-finger");
    reveal_strlit("right-middle-finger");
    reveal_strlit("right-ring-finger");
    reveal_strlit("right-little-finger");
    reveal_strlit("any");
    assert("left-thumb"@.len() == 10 && "left-thumb"@[0] == 'l' && "left-thumb"@[5] == 't' && "left-thumb"@[6] == 'h');
    assert("left-index-finger"@.len() == 17 && "left-index-finger"@[0] == 'l' && "left-index-finger"@[5] == 'i' && "left-index-finger"@[6] == 'n');
    assert("left-middle-finger"@.len() == 18 && "left-middle-finger"@[0] == 'l' && "left-middle-finger"@[5] == 'm' && "left-middle-finger"@[6] == 'i');
    assert("left-ring-finger"@.len() == 16 && "left-ring-finger"@[0] == 'l' && "left-ring-finger"@[5] == 'r' && "left-ring-finger"@[6] == 'i');
    assert("left-little-finger"@.len() == 18 && "left-little-finger"@[0] == 'l' && "left-little-finger"@[5] == 'l' && "left-little-finger"@[6] == 'i');
    assert("right-thumb"@.len() == 11 && "right-thumb"@[0] == 'r' && "right-thumb"@[5] == '-' && "right-thumb"@[6] == 't');
    assert("right-index-finger"@.len() == 18 && "right-index-finger"@[0] == 'r' && "right-index-finger"@[5] == '-' && "right-index-finger"@[6] == 'i');
    assert("right-middle-finger"@.len() == 19 && "right-middle-finger"@[0] == 'r' && "right-middle-finger"@[5] == '-' && "right-middle-finger"@[6] == 'm');
    assert("right-ring-finger"@.len() == 17 && "right-ring-finger"@[0] == 'r' && "right-ring-finger"@[5] == '-' && "right-ring-finger"@[6] == 'r');
    assert("right-little-finger"@.len() == 19 && "right-little-finger"@[0] == 'r' && "right-little-finger"@[5] == '-' && "right-little-finger"@[6] == 'l');
    assert("any"@.len() == 3 && "any"@[0] == 'a');
}

/// The outcome the daemon reports for a verification attempt.
#[derive(Debug, Copy, Clone, PartialEq, Eq, Structural, PartialOrd, Ord)]
pub enum VerifyStatus {
    NoMatch,
    Match,
    RetryScan,
    SwipeTooShort,
    FingerNotCentered,
    RemoveAndRetry,
    Disconnected,
    Unknown,
}

impl VerifyStatus {
    /// The daemon's name for each verify status.
    pub open spec fn spec_as_str(self) -> Seq<char> {
        match self {
            VerifyStatus::NoMatch => "verify-no-match"@,
            VerifyStatus::Match => "verify-match"@,
            VerifyStatus::RetryScan => "verify-retry-scan"@,
            VerifyStatus::SwipeTooShort => "verify-swipe-too-short"@,
            VerifyStatus::FingerNotCentered => "verify-finger-not-centered"@,
            VerifyStatus::RemoveAndRetry => "verify-remove-and-retry"@,
            VerifyStatus::Disconnected => "verify-disconnected"@,
            VerifyStatus::Unknown => "verify-unknown-error"@,
        }
    }

    /// The name the daemon uses for this verify status.
    pub fn as_str(&self) -> (r: &'static str)
        ensures
            r@ == self.spec_as_str(),
    {
        match self {
            VerifyStatus::NoMatch => "verify-no-match",
            VerifyStatus::Match => "verify-match",
            VerifyStatus::RetryScan => "verify-retry-scan",
            VerifyStatus::SwipeTooShort => "verify-swipe-too-short",
            VerifyStatus::FingerNotCentered => "verify-finger-not-centered",
            VerifyStatus::RemoveAndRetry => "verify-remove-and-retry",
            VerifyStatus::Disconnected => "verify-disconnected",
            VerifyStatus::Unknown => "verify-unknown-error",
        }
    }

    /// Parses the daemon's name of a verify status; any other string is refused.
    pub fn from_str(s: &str) -> (r: Result<VerifyStatus, Error>)
        ensures
            match r {
                Ok(v) => v.spec_as_str() == s@,
                Err(e) => (forall|v: VerifyStatus| #[trigger] v.spec_as_str() != s@) && match e {
                    Error::InvalidVerifyStatus(t) => t@ == s@,
                    _ => false,
                },
            },
    {
        if str_eq(s, "verify-no-match") {
            Ok(VerifyStatus::NoMatch)
        } else if str_eq(s, "verify-match") {
            Ok(VerifyStatus::Match)
        } else if str_eq(s, "verify-retry-scan") {
            Ok(VerifyStatus::RetryScan)
        } else if str_eq(s, "verify-swipe-too-short") {
            Ok(VerifyStatus::SwipeTooShort)
        } else if str_eq(s, "verify-finger-not-centered") {
            Ok(VerifyStatus::FingerNotCentered)
        } else if str_eq(s, "verify-remove-and-retry") {
            Ok(VerifyStatus::RemoveAndRetry)
        } else if str_eq(s, "verify-disconnected") {
            Ok(VerifyStatus::Disconnected)
        } else if str_eq(s, "verify-unknown-error") {
            Ok(VerifyStatus::Unknown)
        } else {
            Err(Error::InvalidVerifyStatus(s.to_owned()))
        }
    }
}

impl std::str::FromStr for VerifyStatus {
    type Err = Error;

    fn from_str(s: &str) -> Result<VerifyStatus, Error> {
        VerifyStatus::from_str(s)
    }
}

/// Distinct verify statuss have distinct names, so a name parses back to the
/// verify status it was printed from.
pub proof fn lemma_verify_status_names_distinct(a: VerifyStatus, b: VerifyStatus)
    ensures
        a.spec_as_str() == b.spec_as_str() ==> a == b,
{
    reveal_strlit("verify-no-match");
    reveal_strlit("verify-match");
    reveal_strlit("verify-retry-scan");
    reveal_strlit("verify-swipe-too-short");
    reveal_strlit("verify-finger-not-centered");
    reveal_strlit("verify-remove-and-retry");
    reveal_strlit("verify-disconnected");
    reveal_strlit("verify-unknown-error");
    assert("verify-no-match"@.len() == 15);
    assert("verify-match"@.len() == 12);
    assert("verify-retry-scan"@.len() == 17);
    assert("verify-swipe-too-short"@.len() == 22);
    assert("verify-finger-not-centered"@.len() == 26);
    assert("verify-remove-and-retry"@.len() == 23);
    assert("verify-disconnected"@.len() == 19);
    assert("verify-unknown-error"@.len() == 20);
}

/// The progress the daemon reports for an enrollment.
#[derive(Debug, Copy, Clone, PartialEq, Eq, Structural, PartialOrd, Ord)]
pub enum EnrollStatus {
    Completed,
    Failed,
    StagePassed,
    RetryScan,
    SwipeTooShort,
    FingerNotCentered,
    RemoveAndRetry,
    DataFull,
    Duplicate,
    Disconnected,
    Unknown,
}

impl EnrollStatus {
    /// The daemon's name for each enroll status.
    pub open spec fn spec_as_str(self) -> Seq<char> {
        match self {
            EnrollStatus::Completed => "enroll-completed"@,
            EnrollStatus::Failed => "enroll-failed"@,
            EnrollStatus::StagePassed => "enroll-stage-passed"@,
            EnrollStatus::RetryScan => "enroll-retry-scan"@,
            EnrollStatus::SwipeTooShort => "enroll-swipe-too-short"@,
            EnrollStatus::FingerNotCentered => "enroll-finger-not-centered"@,
            EnrollStatus::RemoveAndRetry => "enroll-remove-and-retry"@,
            EnrollStatus::DataFull => "enroll-data-full"@,
            EnrollStatus::Duplicate => "enroll-duplicate"@,
            EnrollStatus::Disconnected => "enroll-disconnected"@,
            EnrollStatus::Unknown => "enroll-unknown-error"@,
        }
    }

    /// The name the daemon uses for this enroll status.
    pub fn as_str(&self) -> (r: &'static str)
        ensures
            r@ == self.spec_as_str(),
    {
        match self {
            EnrollStatus::Completed => "enroll-completed",
            EnrollStatus::Failed => "enroll-failed",
            EnrollStatus::StagePassed => "enroll-stage-passed",
            EnrollStatus::RetryScan => "enroll-retry-scan",
            EnrollStatus::SwipeTooShort => "enroll-swipe-too-short",
            EnrollStatus::FingerNotCentered => "enroll-finger-not-centered",
            EnrollStatus::RemoveAndRetry => "enroll-remove-and-retry",
            EnrollStatus::DataFull => "enroll-data-full",
            EnrollStatus::Duplicate => "enroll-duplicate",
            EnrollStatus::Disconnected => "enroll-disconnected",
            EnrollStatus::Unknown => "enroll-unknown-error",
        }
    }

    /// Parses the daemon's name of a enroll status; any other string is refused.
    pub fn from_str(s: &str) -> (r: Result<EnrollStatus, Error>)
        ensures
            match r {
                Ok(v) => v.spec_as_str() == s@,
                Err(e) => (forall|v: EnrollStatus| #[trigger] v.spec_as_str() != s@) && match e {
                    Error::InvalidEnrollStatus(t) => t@ == s@,
                    _ => false,
                },
            },
    {
        if str_eq(s, "enroll-completed") {
            Ok(EnrollStatus::Completed)
        } else if str_eq(s, "enroll-failed") {
            Ok(EnrollStatus::Failed)
        } else if str_eq(s, "enroll-stage-passed") {
            Ok(EnrollStatus::StagePassed)
        } else if str_eq(s, "enroll-retry-scan") {
            Ok(EnrollStatus::RetryScan)
        } else if str_eq(s, "enroll-swipe-too-short") {
            Ok(EnrollStatus::SwipeTooShort)
        } else if str_eq(s, "enroll-finger-not-centered") {
            Ok(EnrollStatus::FingerNotCentered)
        } else if str_eq(s, "enroll-remove-and-retry") {
            Ok(EnrollStatus::RemoveAndRetry)
        } else if str_eq(s, "enroll-data-full") {
            Ok(EnrollStatus::DataFull)
        } else if str_eq(s, "enroll-duplicate") {
            Ok(EnrollStatus::Duplicate)
        } else if str_eq(s, "enroll-disconnected") {
            Ok(EnrollStatus::Disconnected)
        } else if str_eq(s, "enroll-unknown-error") {
            Ok(EnrollStatus::Unknown)
        } else {
            Err(Error::InvalidEnrollStatus(s.to_owned()))
        }
    }
}

impl std::str::FromStr for EnrollStatus {
    type Err = Error;

    fn from_str(s: &str) -> Result<EnrollStatus, Error> {
        EnrollStatus::from_str(s)
    }
}

/// Distinct enroll statuss have distinct names, so a name parses back to the
/// enroll status it was printed from.
pub proof fn lemma_enroll_status_names_distinct(a: EnrollStatus, b: EnrollStatus)
    ensures
        a.spec_as_str() == b.spec_as_str() ==> a == b,
{
    reveal_strlit("enroll-completed");
    reveal_strlit("enroll-failed");
    reveal_strlit("enroll-stage-passed");
    reveal_strlit("enroll-retry-scan");
    reveal_strlit("enroll-swipe-too-short");
    reveal_strlit("enroll-finger-not-centered");
    reveal_strlit("enroll-remove-and-retry");
    reveal_strlit("enroll-data-full");
    reveal_strlit("enroll-duplicate");
    reveal_strlit("enroll-disconnected");
    reveal_strlit("enroll-unknown-error");
    assert("enroll-completed"@.len() == 16 && "enroll-completed"@[7] == 'c' && "enroll-completed"@[8] == 'o');
    assert("enroll-failed"@.len() == 13 && "enroll-failed"@[7] == 'f' && "enroll-failed"@[8] == 'a');
    assert("enroll-stage-passed"@.len() == 19 && "enroll-stage-passed"@[7] == 's' && "enroll-stage-passed"@[8] == 't');
    assert("enroll-retry-scan"@.len() == 17 && "enroll-retry-scan"@[7] == 'r' && "enroll-retry-scan"@[8] == 'e');
    assert("enroll-swipe-too-short"@.len() == 22 && "enroll-swipe-too-short"@[7] == 's' && "enroll-swipe-too-short"@[8] == 'w');
    assert("enroll-finger-not-centered"@.len() == 26 && "enroll-finger-not-centered"@[7] == 'f' && "enroll-finger-not-centered"@[8] == 'i');
    assert("enroll-remove-and-retry"@.len() == 23 && "enroll-remove-and-retry"@[7] == 'r' && "enroll-remove-and-retry"@[8] == 'e');
    assert("enroll-data-full"@.len() == 16 && "enroll-data-full"@[7] == 'd' && "enroll-data-full"@[8] == 'a');
    assert("enroll-duplicate"@.len() == 16 && "enroll-duplicate"@[7] == 'd' && "enroll-duplicate"@[8] == 'u');
    assert("enroll-disconnected"@.len() == 19 && "enroll-disconnected"@[7] == 'd' && "enroll-disconnected"@[8] == 'i');
    assert("enroll-unknown-error"@.len() == 20 && "enroll-unknown-error"@[7] == 'u' && "enroll-unknown-error"@[8] == 'n');
}

} // verus!
