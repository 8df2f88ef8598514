use turntable::status::{Error, Status};

#[test]
fn status_table_rows() {
    assert_eq!(Status::from(0), Status::Stopped);
    assert_eq!(Status::from(1), Status::Moving);
    assert_eq!(Status::from(-1), Status::Error(Error::Stalled));
    assert_eq!(Status::from(-3), Status::Error(Error::NoPower));
}

#[test]
fn status_unknown_codes() {
    for code in [-300, -2, 2, 3, 42, i32::MIN, i32::MAX] {
        assert_eq!(Status::from(code), Status::Error(Error::UnknownError));
    }
}

#[test]
fn status_failed_query_ignores_payload() {
    assert_eq!(Status::from_query(1, 0), Status::Error(Error::UnknownError));
    assert_eq!(Status::from_query(-5, 1), Status::Error(Error::UnknownError));
    assert_eq!(Status::from_query(0, 1), Status::Moving);
    assert_eq!(Status::from_query(0, -1), Status::Error(Error::Stalled));
}

#[test]
fn status_error_payload() {
    assert_eq!(Status::Error(Error::NoPower).error(), Some(Error::NoPower));
    assert_eq!(Status::Stopped.error(), None);
    assert_eq!(Status::Moving.error(), None);
}

#[test]
fn error_messages() {
    assert_eq!(Error::Stalled.message(), "The turntable was unable to move.");
    assert_eq!(Error::NotLicensed.message(), "The license dongle was unavailable.");
}
