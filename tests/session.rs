use turntable::session::{TeardownStep, TurningTable, CODE_NOT_FOUND};
use turntable::status::Error;

#[test]
fn session_opens_and_tears_down() {
    let mut t = TurningTable::new();
    assert_eq!(t.library_initialized(0), Ok(()));
    assert_eq!(t.handle_allocated(true), Ok(()));
    assert_eq!(t.turntable_opened(0), Ok(()));
    assert!(t.is_open());
    assert_eq!(t.teardown(), vec![TeardownStep::CloseHandle, TeardownStep::ReleaseLibrary]);
    assert!(!t.is_open());
    assert_eq!(t.teardown(), vec![]);
}

#[test]
fn session_failed_open_after_allocation() {
    let mut t = TurningTable::new();
    assert_eq!(t.library_initialized(0), Ok(()));
    assert_eq!(t.handle_allocated(true), Ok(()));
    assert_eq!(t.turntable_opened(CODE_NOT_FOUND), Err(Error::DeviceUnavailable));
    assert!(!t.is_open());
    assert_eq!(t.teardown(), vec![TeardownStep::CloseHandle, TeardownStep::ReleaseLibrary]);
    assert_eq!(t.teardown(), vec![]);
}

#[test]
fn session_open_other_failure() {
    let mut t = TurningTable::new();
    assert_eq!(t.library_initialized(0), Ok(()));
    assert_eq!(t.handle_allocated(true), Ok(()));
    assert_eq!(t.turntable_opened(-1), Err(Error::UnknownError));
}

#[test]
fn session_no_handle() {
    let mut t = TurningTable::new();
    assert_eq!(t.library_initialized(0), Ok(()));
    assert_eq!(t.handle_allocated(false), Err(Error::UnknownError));
    assert_eq!(t.teardown(), vec![TeardownStep::ReleaseLibrary]);
}

#[test]
fn session_not_licensed() {
    let mut t = TurningTable::new();
    assert_eq!(t.library_initialized(-7), Err(Error::NotLicensed));
    assert_eq!(t.teardown(), vec![]);
}
