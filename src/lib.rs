//! Control logic for a motorized turntable driven through a native device
//! library: status translation, the open/teardown protocol of a device
//! session, the poll protocol that waits for a move to finish, and the
//! parsing of rotation commands.

pub mod motion;
pub mod report;
pub mod rotation;
pub mod session;
pub mod status;
