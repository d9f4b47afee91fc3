//! The launcher's error taxonomy.
//!
//! Every failure of the bootstrap sequence is fatal and falls under one of
//! these causes; each carries a fixed diagnostic line.

use vstd::prelude::*;

verus! {

/// Why a launch failed.
#[derive(Clone, Copy, Debug, PartialEq, Eq, Structural)]
pub enum LaunchError {
    /// The bundle's binary header cannot be parsed or lacks required
    /// fields.
    MalformedBundle,
    /// The virtual-filesystem driver could not establish the mount.
    MountUnavailable,
    /// The requested portable directory already exists.
    PortableDirConflict,
    /// The leading argument is a reserved meta-command this runtime does
    /// not know.
    UnrecognizedMetaCommand,
    /// The entry point inside the mounted image is missing or cannot
    /// replace the process image.
    ProcessReplacementFailure,
}

/// The diagnostic line for each failure cause.  The mount failure points
/// at the extraction fallback, as its guidance.
pub open spec fn spec_error_message(e: LaunchError) -> Seq<char> {
    match e {
        LaunchError::MalformedBundle => "cannot locate the embedded filesystem image in this bundle"@,
        LaunchError::MountUnavailable => "cannot mount the embedded filesystem image; check the FUSE setup, or run with --appimage-extract to unpack the bundle instead"@,
        LaunchError::PortableDirConflict => "the portable directory already exists; nothing was created"@,
        LaunchError::UnrecognizedMetaCommand => "unrecognized meta-command"@,
        LaunchError::ProcessReplacementFailure => "cannot execute the entry point inside the mounted image"@,
    }
}

impl LaunchError {
    /// Returns the diagnostic line for this failure cause.
    pub fn message(&self) -> (r: String)
        ensures
            r@ == spec_error_message(*self),
    {
        match self {
            LaunchError::MalformedBundle => String::from_str(
                "cannot locate the embedded filesystem image in this bundle",
            ),
            LaunchError::MountUnavailable => String::from_str(
                "cannot mount the embedded filesystem image; check the FUSE setup, or run with --appimage-extract to unpack the bundle instead",
            ),
            LaunchError::PortableDirConflict => String::from_str(
                "the portable directory already exists; nothing was created",
            ),
            LaunchError::UnrecognizedMetaCommand => String::from_str("unrecognized meta-command"),
            LaunchError::ProcessReplacementFailure => String::from_str(
                "cannot execute the entry point inside the mounted image",
            ),
        }
    }
}

} // verus!
