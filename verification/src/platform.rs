//! The operating-system facts the installation locator branches on.
//!
//! The library's path logic is a pure function of a small platform kind and
//! of the user's home and local-data directories.  Only the three probes
//! below touch the running system; everything that decides on their results
//! is verified.

use vstd::prelude::*;

verus! {

/// The platform kinds the installation locator distinguishes.  Every other
/// platform is `Other`, which no daemon installation convention covers.
#[derive(Clone, Copy, Debug, PartialEq, Eq, Structural)]
pub enum OsKind {
    Ubuntu,
    Linux,
    Debian,
    OracleLinux,
    Macos,
    Windows,
    Other,
}

/// Relies on os_info::get: reports the running operating system's type.
/// Types this library never branches on all map to `OsKind::Other`.
#[verifier::external_body]
pub(crate) fn host_os_kind() -> OsKind {
    match os_info::get().os_type() {
        os_info::Type::Ubuntu => OsKind::Ubuntu,
        os_info::Type::Linux => OsKind::Linux,
        os_info::Type::Debian => OsKind::Debian,
        os_info::Type::OracleLinux => OsKind::OracleLinux,
        os_info::Type::Macos => OsKind::Macos,
        os_info::Type::Windows => OsKind::Windows,
        _ => OsKind::Other,
    }
}

/// Relies on dirs::home_dir: the user's home directory, when the platform
/// reports one whose path is valid UTF-8.
#[verifier::external_body]
pub(crate) fn host_home_dir() -> Option<String> {
    dirs::home_dir().and_then(|p| p.into_os_string().into_string().ok())
}

/// Relies on dirs::data_local_dir: the platform's local-data directory,
/// when the platform reports one whose path is valid UTF-8.
#[verifier::external_body]
pub(crate) fn host_data_local_dir() -> Option<String> {
    dirs::data_local_dir().and_then(|p| p.into_os_string().into_string().ok())
}

} // verus!
