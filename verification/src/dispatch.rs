//! Meta-Command Dispatcher.
//!
//! The launcher inspects the first command-line argument before any mount
//! point is created.  A small set of reserved `--appimage-` arguments is
//! handled here: print help, print version, print the image offset, create
//! a portable data directory, or hold a mount open.  Any other argument
//! beginning with `--appimage-` is rejected; everything else falls through
//! to the normal launch sequence.

use vstd::prelude::*;

use crate::decimal::dec_seq;
use crate::decimal::u64_to_decimal;
use crate::text::spec_starts_with;
use crate::text::str_eq;
use crate::text::str_starts_with;

verus! {

/// What the first command-line argument asks for.
#[derive(Clone, Copy, Debug, PartialEq, Eq, Structural)]
pub enum MetaCommand {
    /// `--appimage-help`: print usage text, no mount.
    Help,
    /// `--appimage-version`: print the runtime's version identifier, no mount.
    Version,
    /// `--appimage-offset`: print the embedded image's byte offset, no mount.
    Offset,
    /// `--appimage-portable-home`: create `<bundle>.home`, no mount.
    PortableHome,
    /// `--appimage-portable-config`: create `<bundle>.config`, no mount.
    PortableConfig,
    /// `--appimage-mount`: mount, print the mount point, and hold.
    Mount,
    /// Any other `--appimage-` argument: rejected.
    Unrecognized,
    /// Anything else: launch the contained application.
    Launch,
}

/// The dispatch decision as a function of the argument's characters.
pub open spec fn spec_dispatch(arg: Seq<char>) -> MetaCommand {
    if arg == "--appimage-help"@ {
        MetaCommand::Help
    } else if arg == "--appimage-version"@ {
        MetaCommand::Version
    } else if arg == "--appimage-offset"@ {
        MetaCommand::Offset
    } else if arg == "--appimage-portable-home"@ {
        MetaCommand::PortableHome
    } else if arg == "--appimage-portable-config"@ {
        MetaCommand::PortableConfig
    } else if arg == "--appimage-mount"@ {
        MetaCommand::Mount
    } else if spec_starts_with(arg, "--appimage-"@) {
        MetaCommand::Unrecognized
    } else {
        MetaCommand::Launch
    }
}

/// The dispatch decision for an invocation, whose first argument may be
/// absent.
pub open spec fn spec_dispatch_opt(arg: Option<Seq<char>>) -> MetaCommand {
    match arg {
        Option::None => MetaCommand::Launch,
        Option::Some(a) => spec_dispatch(a),
    }
}

/// Classifies the first command-line argument.
pub fn classify(arg: &str) -> (r: MetaCommand)
    ensures
        r == spec_dispatch(arg@),
{
    if str_eq(arg, "--appimage-help") {
        MetaCommand::Help
    } else if str_eq(arg, "--appimage-version") {
        MetaCommand::Version
    } else if str_eq(arg, "--appimage-offset") {
        MetaCommand::Offset
    } else if str_eq(arg, "--appimage-portable-home") {
        MetaCommand::PortableHome
    } else if str_eq(arg, "--appimage-portable-config") {
        MetaCommand::PortableConfig
    } else if str_eq(arg, "--appimage-mount") {
        MetaCommand::Mount
    } else if str_starts_with(arg, "--appimage-") {
        MetaCommand::Unrecognized
    } else {
        MetaCommand::Launch
    }
}

/// The usage text, which names the bundle's own portable-home directory.
pub open spec fn spec_help_text(path: Seq<char>) -> Seq<char> {
    "AppImage options:\n  --appimage-help             print this help\n  --appimage-version          print the runtime version\n  --appimage-offset           print the byte offset of the embedded image\n  --appimage-mount            mount the embedded image, print the mount\n                              point and wait until interrupted\n  --appimage-portable-home    create a portable home directory at\n                              "@
        + path
        + ".home\n  --appimage-portable-config  create a portable config directory\n\nIf the portable home directory exists, the contained application stores\nits data there instead of the invoking user's home directory.\n"@
}

/// Builds the usage text for the bundle at `path`.
pub fn help_text(path: &str) -> (r: String)
    ensures
        r@ == spec_help_text(path@),
{
    let head = String::from_str(
        "AppImage options:\n  --appimage-help             print this help\n  --appimage-version          print the runtime version\n  --appimage-offset           print the byte offset of the embedded image\n  --appimage-mount            mount the embedded image, print the mount\n                              point and wait until interrupted\n  --appimage-portable-home    create a portable home directory at\n                              ",
    );
    let with_path = head.concat(path);
    let r = with_path.concat(
        ".home\n  --appimage-portable-config  create a portable config directory\n\nIf the portable home directory exists, the contained application stores\nits data there instead of the invoking user's home directory.\n",
    );
    proof {
        assert(r@ =~= spec_help_text(path@));
    }
    r
}

/// The runtime's version identifier.
pub open spec fn spec_version_text() -> Seq<char> {
    "appimage runtime 0.1.0"@
}

/// Returns the runtime's version identifier.
pub fn version_text() -> (r: String)
    ensures
        r@ == spec_version_text(),
{
    String::from_str("appimage runtime 0.1.0")
}

/// The rejection message for an unrecognized meta-command, echoing the
/// offending argument.
pub open spec fn spec_unrecognized_message(arg: Seq<char>) -> Seq<char> {
    "unrecognized meta-command: "@ + arg
}

/// Builds the rejection message for an unrecognized meta-command.
pub fn unrecognized_message(arg: &str) -> (r: String)
    ensures
        r@ == spec_unrecognized_message(arg@),
{
    String::from_str("unrecognized meta-command: ").concat(arg)
}

/// What the orchestrator is to do next, decided before any mount point
/// exists.
#[derive(Debug)]
pub enum Plan {
    /// Print this usage text and exit successfully.
    ShowHelp(String),
    /// Print this version identifier and exit successfully.
    ShowVersion(String),
    /// Print this decimal byte offset and exit successfully.
    ShowOffset(String),
    /// Create this sibling directory and exit; conflict if it exists.
    CreatePortableDir(String),
    /// Report this message and exit with failure.
    RejectUnknown(String),
    /// Continue to the mount sequence; with `hold`, print the mount point
    /// and keep the mount alive instead of launching.
    Proceed { hold: bool },
}

/// The plan is the one the dispatch decision calls for, with the exact
/// text each terminal command prints.
pub open spec fn spec_plan_ok(arg: Option<Seq<char>>, path: Seq<char>, offset: u64, r: Plan) -> bool {
    match spec_dispatch_opt(arg) {
        MetaCommand::Help => r matches Plan::ShowHelp(t) && t@ == spec_help_text(path),
        MetaCommand::Version => r matches Plan::ShowVersion(t) && t@ == spec_version_text(),
        MetaCommand::Offset => r matches Plan::ShowOffset(t) && t@ == dec_seq(offset as nat),
        MetaCommand::PortableHome => r matches Plan::CreatePortableDir(t) && t@ == path
            + ".home"@,
        MetaCommand::PortableConfig => r matches Plan::CreatePortableDir(t) && t@ == path
            + ".config"@,
        MetaCommand::Mount => r matches (Plan::Proceed { hold }) && hold == true,
        MetaCommand::Unrecognized => r matches Plan::RejectUnknown(t) && t@
            == spec_unrecognized_message(arg->Some_0),
        MetaCommand::Launch => r matches (Plan::Proceed { hold }) && hold == false,
    }
}

/// The offset meta-command prints exactly the Image Locator's number: a
/// digits-only numeral (hence non-negative) that reads back as the
/// located offset, whatever the bundle's path and contents are.
pub proof fn lemma_offset_output_faithful(arg: Seq<char>, path: Seq<char>, offset: u64, r: Plan)
    requires
        arg == "--appimage-offset"@,
        spec_plan_ok(Option::Some(arg), path, offset, r),
    ensures
        r matches Plan::ShowOffset(t) && t@ == dec_seq(offset as nat) && crate::decimal::dec_val(
            t@,
        ) == offset && (forall|i: int|
            0 <= i < t@.len() ==> crate::decimal::is_dec_digit(#[trigger] t@[i])),
{
    reveal_strlit("--appimage-offset");
    reveal_strlit("--appimage-help");
    reveal_strlit("--appimage-version");
    assert("--appimage-offset"@.len() == 17);
    assert("--appimage-help"@.len() == 15);
    assert("--appimage-version"@.len() == 18);
    assert(spec_dispatch(arg) == MetaCommand::Offset);
    crate::decimal::lemma_dec_seq_value(offset as nat);
    crate::decimal::lemma_dec_seq_digits(offset as nat);
}

/// Decides the whole invocation from the first argument, the bundle's
/// resolved path and the located image offset.
pub fn plan_invocation(arg: Option<&str>, real_path: &str, offset: u64) -> (r: Plan)
    ensures
        spec_plan_ok(
            match arg {
                Option::None => Option::None,
                Option::Some(a) => Option::Some(a@),
            },
            real_path@,
            offset,
            r,
        ),
{
    match arg {
        None => Plan::Proceed { hold: false },
        Some(a) => {
            match classify(a) {
                MetaCommand::Help => Plan::ShowHelp(help_text(real_path)),
                MetaCommand::Version => Plan::ShowVersion(version_text()),
                MetaCommand::Offset => Plan::ShowOffset(u64_to_decimal(offset)),
                MetaCommand::PortableHome => Plan::CreatePortableDir(
                    String::from_str(real_path).concat(".home"),
                ),
                MetaCommand::PortableConfig => Plan::CreatePortableDir(
                    String::from_str(real_path).concat(".config"),
                ),
                MetaCommand::Mount => Plan::Proceed { hold: true },
                MetaCommand::Unrecognized => Plan::RejectUnknown(unrecognized_message(a)),
                MetaCommand::Launch => Plan::Proceed { hold: false },
            }
        },
    }
}

} // verus!
