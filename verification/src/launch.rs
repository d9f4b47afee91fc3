//! Launch Environment and portable directories.
//!
//! Just before process replacement the launcher exposes a fixed set of
//! environment variables to the contained application: the bundle's own
//! path, the original `argv[0]`, the mount point as the application root,
//! and the pre-launch working directory.  Sibling `<bundle>.home` and
//! `<bundle>.config` directories, when present, override the home and
//! config locations.  This module builds that variable list and decides
//! the portable-directory meta-commands.

use vstd::prelude::*;

use crate::errors::LaunchError;

verus! {

/// One environment variable handed to the contained application.
#[derive(Debug, Clone)]
pub struct EnvVar {
    pub name: String,
    pub value: String,
}

/// The views of a variable list: pairs of name and value.
pub open spec fn env_views(s: Seq<EnvVar>) -> Seq<(Seq<char>, Seq<char>)> {
    s.map_values(|e: EnvVar| (e.name@, e.value@))
}

/// The launch environment as a function of the invocation's facts: bundle
/// path, original `argv[0]`, mount point, original working directory, and
/// whether each portable sibling directory exists.
pub open spec fn spec_launch_env(
    bundle: Seq<char>,
    argv0: Seq<char>,
    mount_dir: Seq<char>,
    owd: Seq<char>,
    home: bool,
    config: bool,
) -> Seq<(Seq<char>, Seq<char>)> {
    seq![("APPIMAGE"@, bundle), ("ARGV0"@, argv0), ("APPDIR"@, mount_dir)] + (if home {
        seq![("HOME"@, bundle + ".home"@)]
    } else {
        Seq::empty()
    }) + (if config {
        seq![("XDG_CONFIG_HOME"@, bundle + ".config"@)]
    } else {
        Seq::empty()
    }) + seq![("OWD"@, owd)]
}

/// Builds the launch environment.  `home_exists` and `config_exists` say
/// whether the sibling `<bundle>.home` and `<bundle>.config` directories
/// are present.
pub fn build_launch_env(
    bundle: &str,
    argv0: &str,
    mount_dir: &str,
    owd: &str,
    home_exists: bool,
    config_exists: bool,
) -> (r: Vec<EnvVar>)
    ensures
        env_views(r@) == spec_launch_env(
            bundle@,
            argv0@,
            mount_dir@,
            owd@,
            home_exists,
            config_exists,
        ),
{
    let mut v: Vec<EnvVar> = Vec::new();
    v.push(EnvVar { name: String::from_str("APPIMAGE"), value: String::from_str(bundle) });
    v.push(EnvVar { name: String::from_str("ARGV0"), value: String::from_str(argv0) });
    v.push(EnvVar { name: String::from_str("APPDIR"), value: String::from_str(mount_dir) });
    if home_exists {
        v.push(
            EnvVar {
                name: String::from_str("HOME"),
                value: String::from_str(bundle).concat(".home"),
            },
        );
    }
    if config_exists {
        v.push(
            EnvVar {
                name: String::from_str("XDG_CONFIG_HOME"),
                value: String::from_str(bundle).concat(".config"),
            },
        );
    }
    v.push(EnvVar { name: String::from_str("OWD"), value: String::from_str(owd) });
    proof {
        assert(env_views(v@) =~= spec_launch_env(
            bundle@,
            argv0@,
            mount_dir@,
            owd@,
            home_exists,
            config_exists,
        ));
    }
    v
}

/// With the portable home directory present, the environment overrides
/// the home variable to that directory; without it, no home variable is
/// produced at all, so the ambient value stands.  The config override
/// behaves the same way.
pub proof fn lemma_home_override(
    bundle: Seq<char>,
    argv0: Seq<char>,
    mount_dir: Seq<char>,
    owd: Seq<char>,
    home: bool,
    config: bool,
)
    ensures
        home ==> spec_launch_env(bundle, argv0, mount_dir, owd, home, config).contains(
            ("HOME"@, bundle + ".home"@),
        ),
        !home ==> forall|i: int|
            0 <= i < spec_launch_env(bundle, argv0, mount_dir, owd, home, config).len()
                ==> (#[trigger] spec_launch_env(bundle, argv0, mount_dir, owd, home, config)[i]).0
                != "HOME"@,
{
    reveal_strlit("APPIMAGE");
    reveal_strlit("ARGV0");
    reveal_strlit("APPDIR");
    reveal_strlit("HOME");
    reveal_strlit("XDG_CONFIG_HOME");
    reveal_strlit("OWD");
    let env = spec_launch_env(bundle, argv0, mount_dir, owd, home, config);
    if home {
        assert(env[3] == ("HOME"@, bundle + ".home"@));
    } else {
        assert("APPIMAGE"@.len() == 8);
        assert("ARGV0"@.len() == 5);
        assert("APPDIR"@.len() == 6);
        assert("HOME"@.len() == 4);
        assert("XDG_CONFIG_HOME"@.len() == 15);
        assert("OWD"@.len() == 3);
        assert(forall|i: int| 0 <= i < env.len() ==> (#[trigger] env[i]).0 != "HOME"@);
    }
}

/// The sibling portable-directory path: the bundle's own path with a
/// suffix.
pub fn portable_target(bundle: &str, config: bool) -> (r: String)
    ensures
        config ==> r@ == bundle@ + ".config"@,
        !config ==> r@ == bundle@ + ".home"@,
{
    if config {
        String::from_str(bundle).concat(".config")
    } else {
        String::from_str(bundle).concat(".home")
    }
}

/// Creating a portable directory over a set of already-existing paths:
/// it succeeds exactly when the target is absent, and then adds the
/// target and nothing else.
pub open spec fn spec_portable_create(existing: Set<Seq<char>>, target: Seq<char>) -> (bool, Set<
    Seq<char>,
>) {
    if existing.contains(target) {
        (false, existing)
    } else {
        (true, existing.insert(target))
    }
}

/// Requesting the same portable directory twice: the first request
/// succeeds and creates exactly the target; the second conflicts and
/// creates nothing further.
pub proof fn lemma_portable_create_twice(existing: Set<Seq<char>>, target: Seq<char>)
    requires
        !existing.contains(target),
    ensures
        spec_portable_create(existing, target).0,
        spec_portable_create(existing, target).1 == existing.insert(target),
        !spec_portable_create(spec_portable_create(existing, target).1, target).0,
        spec_portable_create(spec_portable_create(existing, target).1, target).1
            == existing.insert(target),
{
}

/// Decides a portable-directory request: a conflict error when the
/// directory already exists, success otherwise.
pub fn portable_outcome(already_exists: bool) -> (r: Result<(), LaunchError>)
    ensures
        already_exists ==> r == Err::<(), LaunchError>(LaunchError::PortableDirConflict),
        !already_exists ==> r == Ok::<(), LaunchError>(()),
{
    if already_exists {
        Err(LaunchError::PortableDirConflict)
    } else {
        Ok(())
    }
}

/// The fixed location of the entry point inside the mounted image.
pub open spec fn spec_entry_point(mount_dir: Seq<char>) -> Seq<char> {
    mount_dir + "/AppRun"@
}

/// Returns the entry-point path inside the mount point.
pub fn entry_point_path(mount_dir: &str) -> (r: String)
    ensures
        r@ == spec_entry_point(mount_dir@),
{
    String::from_str(mount_dir).concat("/AppRun")
}

/// Decides process replacement from the entry point's presence: a
/// replacement error when it is missing, the go-ahead otherwise.
pub fn replacement_precheck(entry_exists: bool) -> (r: Result<(), LaunchError>)
    ensures
        entry_exists ==> r == Ok::<(), LaunchError>(()),
        !entry_exists ==> r == Err::<(), LaunchError>(LaunchError::ProcessReplacementFailure),
{
    if entry_exists {
        Ok(())
    } else {
        Err(LaunchError::ProcessReplacementFailure)
    }
}

} // verus!
