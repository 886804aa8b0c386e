//! A read-only inspection library for per-process data exposed by the
//! process information pseudo-filesystem.
//!
//! The library itself performs no I/O: every function works on plain values
//! (the status text blob, the raw command-line record, the security-context
//! attribute string, the outcome of a username lookup) that a caller has
//! read. Given those, it assembles a typed `Process` snapshot or reports a
//! precise `ProcessError`.

pub mod error;
pub mod num;
pub mod process;
pub mod selinux;
pub mod signal;
pub mod status;
pub mod text;

pub use error::ProcessError;
pub use process::Process;
pub use process::ProcessStat;
pub use process::get_process_info;
pub use selinux::SElinux;
pub use signal::Signal;
pub use status::get_proc_status_value;
