//! Bundle-bootstrap library for self-contained application bundles.
//!
//! A bundle is a single executable file that carries a read-only filesystem
//! image appended after its native code.  This crate holds the verified
//! logic of the launcher: locating the embedded image inside the host
//! executable, classifying the reserved leading command-line arguments,
//! deriving the mount-point name and the launch environment, and the
//! state machine that orders the whole bootstrap sequence.  The actual
//! I/O (reading the file, mounting, replacing the process image) lives
//! outside this crate and consumes these results as plain values.

pub mod decimal;
pub mod dispatch;
pub mod elf;
pub mod errors;
pub mod launch;
pub mod mount;
pub mod session;
pub mod text;
