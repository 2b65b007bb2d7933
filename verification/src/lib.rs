//! Native backend logic for a desktop countdown-timer application.
//!
//! The library holds the verified core of the backend commands: deciding
//! whether a newer release is available, choosing the installer asset to
//! download, mapping HTTP status codes to user-facing messages, planning
//! rotating log writes, deriving download file names, and keeping the
//! at-most-one invariant of the system sleep inhibitor.
//!
//! All network and file input/output lives outside the library; the
//! functions here take plain values and return plain values, each with a
//! contract that states exactly what it computes.

pub mod text;
pub mod version;
pub mod release;
pub mod check;
pub mod logging;
pub mod download;
pub mod sleep;
