//! Mount Session: naming the mount point and shaping the mount request.
//!
//! The mount point is a uniquely-named directory under volatile temporary
//! storage.  Its name starts with a short prefix derived from the bundle's
//! file name, for operator-visible diagnostics; uniqueness against
//! concurrent invocations is the temporary-directory maker's concern, the
//! prefix is this module's.  The module also fixes the options the
//! virtual-filesystem driver is asked to mount with, and which path the
//! hold mode prints.

use vstd::prelude::*;

use crate::decimal::dec_seq;
use crate::decimal::u64_to_decimal;

verus! {

/// How many leading characters of the bundle's file name the mount-point
/// prefix keeps.
pub open spec fn spec_prefix_keep() -> nat {
    6
}

/// The mount-point name prefix: a fixed marker followed by a short head
/// of the bundle's file name.
pub open spec fn spec_mount_prefix(file_name: Seq<char>) -> Seq<char> {
    ".mount_"@ + (if file_name.len() <= spec_prefix_keep() {
        file_name
    } else {
        file_name.take(spec_prefix_keep() as int)
    })
}

/// Builds the mount-point name prefix from the bundle's file name.
pub fn mount_prefix(file_name: &str) -> (r: String)
    ensures
        r@ == spec_mount_prefix(file_name@),
{
    let n = file_name.unicode_len();
    let keep: usize = if n <= 6 {
        n
    } else {
        6
    };
    let head = file_name.substring_char(0, keep);
    proof {
        assert(file_name@.subrange(0, keep as int) =~= (if file_name@.len() <= 6 {
            file_name@
        } else {
            file_name@.take(6)
        }));
    }
    String::from_str(".mount_").concat(head)
}

/// One option of the mount request.
#[derive(Debug, Clone)]
pub enum MountOpt {
    /// The filesystem name the mount reports.
    FsName(String),
    /// The image is exposed read-only.
    ReadOnly,
    /// Where the filesystem image begins inside the bundle, as an
    /// `offset=` argument.
    ImageOffset(String),
}

/// Shapes the mount request for an image at byte offset `offset`: the
/// driver name, read-only, and the image offset.
pub fn mount_options(offset: u64) -> (r: Vec<MountOpt>)
    ensures
        r@.len() == 3,
        r@[0] matches MountOpt::FsName(s) && s@ == "squashfuse"@,
        r@[1] matches MountOpt::ReadOnly,
        r@[2] matches MountOpt::ImageOffset(s) && s@ == "offset="@ + dec_seq(offset as nat),
{
    let mut v: Vec<MountOpt> = Vec::new();
    v.push(MountOpt::FsName(String::from_str("squashfuse")));
    v.push(MountOpt::ReadOnly);
    v.push(MountOpt::ImageOffset(String::from_str("offset=").concat(u64_to_decimal(offset).as_str())));
    v
}

/// The path the hold mode prints: the canonicalized mount point when
/// canonicalization succeeded, the raw mount point otherwise.
pub fn hold_display_path(canonical: Option<String>, raw: String) -> (r: String)
    ensures
        canonical matches Some(c) ==> r@ == c@,
        canonical is None ==> r@ == raw@,
{
    match canonical {
        Some(c) => c,
        None => raw,
    }
}

} // verus!
