use libc::c_int;
use vstd::prelude::*;

verus! {

/// A failure reported by the turntable, either while a session is opened or
/// while the table is in use.
#[derive(Clone, Copy, PartialEq, Eq, Structural, Debug)]
pub enum Error {
    /// The license check of the device library failed.
    NotLicensed,
    /// The turntable was not found.
    DeviceUnavailable,
    /// The turntable was unable to move.
    Stalled,
    /// The turntable has no power.
    NoPower,
    /// Any failure the device library does not name.
    UnknownError,
}

/// The current status of the turntable.
#[derive(Clone, Copy, PartialEq, Eq, Structural, Debug)]
pub enum Status {
    /// The turntable is moving.
    Moving,
    /// The turntable has stopped.
    Stopped,
    /// The turntable reports a failure.
    Error(Error),
}

/// Native status code of a table at rest.
pub const CODE_STOPPED: c_int = 0;

/// Native status code of a moving table.
pub const CODE_MOVING: c_int = 1;

/// Native status code of a stalled table.
pub const CODE_STALLED: c_int = -1;

/// Native status code of a table without power.
pub const CODE_NO_POWER: c_int = -3;

/// The status that a native status code stands for: the fixed table of the
/// device library, with every other code read as an unknown failure.
pub open spec fn status_of_code(code: int) -> Status {
    if code == CODE_STOPPED {
        Status::Stopped
    } else if code == CODE_MOVING {
        Status::Moving
    } else if code == CODE_STALLED {
        Status::Error(Error::Stalled)
    } else if code == CODE_NO_POWER {
        Status::Error(Error::NoPower)
    } else {
        Status::Error(Error::UnknownError)
    }
}

/// The native code that stands for a status, where the table has one.
pub open spec fn code_of_status(s: Status) -> Option<int> {
    match s {
        Status::Stopped => Some(CODE_STOPPED as int),
        Status::Moving => Some(CODE_MOVING as int),
        Status::Error(Error::Stalled) => Some(CODE_STALLED as int),
        Status::Error(Error::NoPower) => Some(CODE_NO_POWER as int),
        _ => None,
    }
}

/// The status that a status query stands for: a failed query (nonzero
/// result) is an unknown failure whatever the payload holds.
pub open spec fn status_of_query(result: int, code: int) -> Status {
    if result != 0 {
        Status::Error(Error::UnknownError)
    } else {
        status_of_code(code)
    }
}

/// The failure that a status carries, if any.
pub open spec fn error_of(s: Status) -> Option<Error> {
    match s {
        Status::Error(e) => Some(e),
        _ => None,
    }
}

/// The text that describes a failure.
pub open spec fn error_message(e: Error) -> Seq<char> {
    match e {
        Error::NotLicensed => "The license dongle was unavailable."@,
        Error::DeviceUnavailable => "The turntable was not found."@,
        Error::Stalled => "The turntable was unable to move."@,
        Error::NoPower => "The turntable has no power."@,
        Error::UnknownError => "An unknown error occurred."@,
    }
}

impl Error {
    /// The text that describes this failure.
    pub fn message(&self) -> (r: &'static str)
        ensures
            r@ == error_message(*self),
    {
        match self {
            Error::NotLicensed => "The license dongle was unavailable.",
            Error::DeviceUnavailable => "The turntable was not found.",
            Error::Stalled => "The turntable was unable to move.",
            Error::NoPower => "The turntable has no power.",
            Error::UnknownError => "An unknown error occurred.",
        }
    }
}

impl From<c_int> for Status {
    fn from(code: c_int) -> (r: Status)
        ensures
            r == status_of_code(code as int),
    {
        match code {
            CODE_STOPPED => Status::Stopped,
            CODE_MOVING => Status::Moving,
            CODE_STALLED => Status::Error(Error::Stalled),
            CODE_NO_POWER => Status::Error(Error::NoPower),
            _ => Status::Error(Error::UnknownError),
        }
    }
}

impl vstd::std_specs::convert::FromSpecImpl<c_int> for Status {
    open spec fn obeys_from_spec() -> bool {
        true
    }

    open spec fn from_spec(v: c_int) -> Status {
        status_of_code(v as int)
    }
}

impl Status {
    /// Reads the outcome of a native status query: `result` is what the
    /// query returned and `code` the status code it wrote.
    pub fn from_query(result: c_int, code: c_int) -> (r: Status)
        ensures
            r == status_of_query(result as int, code as int),
    {
        if result != 0 {
            Status::Error(Error::UnknownError)
        } else {
            Status::from(code)
        }
    }

    /// The failure this status carries, if any.
    pub fn error(&self) -> (r: Option<Error>)
        ensures
            r == error_of(*self),
    {
        match self {
            Status::Error(e) => Some(*e),
            _ => None,
        }
    }
}

/// Status translation is total and follows the table exactly: a status
/// with a native code decodes from that code, a code that decodes to a
/// status other than an unknown failure is that status's code, and a code
/// outside the table decodes to an unknown failure.
pub proof fn lemma_status_table(code: int, s: Status)
    ensures
        code_of_status(s) == Some(code) ==> status_of_code(code) == s,
        status_of_code(code) != Status::Error(Error::UnknownError) ==> code_of_status(
            status_of_code(code),
        ) == Some(code),
        (forall|t: Status| code_of_status(t) != Some(code)) ==> status_of_code(code)
            == Status::Error(Error::UnknownError),
{
    if code == CODE_STOPPED {
        assert(code_of_status(Status::Stopped) == Some(code));
    } else if code == CODE_MOVING {
        assert(code_of_status(Status::Moving) == Some(code));
    } else if code == CODE_STALLED {
        assert(code_of_status(Status::Error(Error::Stalled)) == Some(code));
    } else if code == CODE_NO_POWER {
        assert(code_of_status(Status::Error(Error::NoPower)) == Some(code));
    }
}

} // verus!
