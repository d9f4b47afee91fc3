use appimage_runtime::errors::LaunchError;
use appimage_runtime::launch::{
    build_launch_env, entry_point_path, portable_outcome, portable_target, replacement_precheck,
};
use appimage_runtime::mount::{hold_display_path, mount_options, mount_prefix, MountOpt};
use appimage_runtime::session::{init, step, Event, Phase};

fn env_pairs(
    bundle: &str,
    argv0: &str,
    mount_dir: &str,
    owd: &str,
    home: bool,
    config: bool,
) -> Vec<(String, String)> {
    build_launch_env(bundle, argv0, mount_dir, owd, home, config)
        .into_iter()
        .map(|e| (e.name, e.value))
        .collect()
}

#[test]
fn launch_env_without_portable_directories() {
    let env = env_pairs("/opt/app.AppImage", "./app", "/tmp/.mount_app123", "/home/me", false, false);
    assert_eq!(
        env,
        vec![
            ("APPIMAGE".to_string(), "/opt/app.AppImage".to_string()),
            ("ARGV0".to_string(), "./app".to_string()),
            ("APPDIR".to_string(), "/tmp/.mount_app123".to_string()),
            ("OWD".to_string(), "/home/me".to_string()),
        ]
    );
    assert!(env.iter().all(|(name, _)| name.as_str() != "HOME" && name.as_str() != "XDG_CONFIG_HOME"));
}

#[test]
fn launch_env_with_portable_home_overrides_home() {
    let env = env_pairs("/opt/app.AppImage", "./app", "/tmp/m", "/home/me", true, false);
    assert!(env.contains(&("HOME".to_string(), "/opt/app.AppImage.home".to_string())));
    assert!(env.iter().all(|(name, _)| name.as_str() != "XDG_CONFIG_HOME"));
}

#[test]
fn launch_env_with_portable_config_overrides_config() {
    let env = env_pairs("/opt/app.AppImage", "./app", "/tmp/m", "/home/me", false, true);
    assert!(env.contains(&(
        "XDG_CONFIG_HOME".to_string(),
        "/opt/app.AppImage.config".to_string()
    )));
    assert!(env.iter().all(|(name, _)| name.as_str() != "HOME"));
}

#[test]
fn portable_request_conflicts_the_second_time() {
    // The first request finds no directory and succeeds; once it exists,
    // the same request conflicts and creates nothing further.
    assert_eq!(portable_outcome(false), Ok(()));
    assert_eq!(portable_outcome(true), Err(LaunchError::PortableDirConflict));
}

#[test]
fn portable_targets_are_bundle_siblings() {
    assert_eq!(portable_target("/opt/app.AppImage", false), "/opt/app.AppImage.home");
    assert_eq!(portable_target("/opt/app.AppImage", true), "/opt/app.AppImage.config");
}

#[test]
fn entry_point_is_fixed_inside_the_mount() {
    assert_eq!(entry_point_path("/tmp/.mount_app123"), "/tmp/.mount_app123/AppRun");
}

#[test]
fn missing_entry_point_is_a_replacement_failure() {
    assert_eq!(replacement_precheck(true), Ok(()));
    assert_eq!(
        replacement_precheck(false),
        Err(LaunchError::ProcessReplacementFailure)
    );
}

#[test]
fn error_messages_name_their_cause() {
    assert_eq!(
        LaunchError::PortableDirConflict.message(),
        "the portable directory already exists; nothing was created"
    );
    assert!(LaunchError::MountUnavailable.message().contains("--appimage-extract"));
    assert!(!LaunchError::MalformedBundle.message().is_empty());
    assert!(!LaunchError::UnrecognizedMetaCommand.message().is_empty());
    assert!(!LaunchError::ProcessReplacementFailure.message().is_empty());
}

#[test]
fn mount_prefix_keeps_a_short_head_of_the_name() {
    assert_eq!(mount_prefix("firefox-nightly.AppImage"), ".mount_firefo");
    assert_eq!(mount_prefix("vim"), ".mount_vim");
    assert_eq!(mount_prefix(""), ".mount_");
    assert_eq!(mount_prefix("sixsix"), ".mount_sixsix");
}

#[test]
fn mount_options_name_driver_readonly_and_offset() {
    let opts = mount_options(123);
    assert_eq!(opts.len(), 3);
    match &opts[0] {
        MountOpt::FsName(name) => assert_eq!(name, "squashfuse"),
        other => panic!("expected FsName, got {:?}", other),
    }
    assert!(matches!(opts[1], MountOpt::ReadOnly));
    match &opts[2] {
        MountOpt::ImageOffset(arg) => assert_eq!(arg, "offset=123"),
        other => panic!("expected ImageOffset, got {:?}", other),
    }
}

#[test]
fn hold_prefers_the_canonical_path() {
    assert_eq!(
        hold_display_path(Some("/tmp/canonical".to_string()), "/tmp/raw".to_string()),
        "/tmp/canonical"
    );
    assert_eq!(hold_display_path(None, "/tmp/raw".to_string()), "/tmp/raw");
}

#[test]
fn normal_launch_creates_exactly_one_session() {
    let mut s = init();
    assert_eq!(s.phase, Phase::Start);
    assert_eq!(s.sessions_created, 0);
    s = step(s, Event::OffsetComputed);
    assert_eq!(s.phase, Phase::OffsetResolved);
    s = step(s, Event::MountPointCreated);
    assert_eq!(s.phase, Phase::MountPending);
    assert_eq!(s.sessions_created, 1);
    s = step(s, Event::MountConcluded(true));
    assert_eq!(s.phase, Phase::MountReady);
    s = step(s, Event::EnvironmentBuilt);
    assert_eq!(s.phase, Phase::EnvironmentPrepared);
    s = step(s, Event::Replaced);
    assert_eq!(s.phase, Phase::ProcessReplaced);
    assert_eq!(s.sessions_created, 1);
}

#[test]
fn meta_command_path_creates_no_session() {
    let mut s = init();
    s = step(s, Event::OffsetComputed);
    s = step(s, Event::MetaClaimed);
    assert_eq!(s.phase, Phase::MetaHandled);
    assert_eq!(s.sessions_created, 0);
}

#[test]
fn hold_path_keeps_the_single_session() {
    let mut s = init();
    s = step(s, Event::OffsetComputed);
    s = step(s, Event::MountPointCreated);
    s = step(s, Event::MountConcluded(true));
    s = step(s, Event::HoldRequested);
    assert_eq!(s.phase, Phase::HoldForExternalMount);
    assert_eq!(s.sessions_created, 1);
}

#[test]
fn failed_mount_fails_the_invocation() {
    let mut s = init();
    s = step(s, Event::OffsetComputed);
    s = step(s, Event::MountPointCreated);
    s = step(s, Event::MountConcluded(false));
    assert_eq!(s.phase, Phase::Failed);
    assert_eq!(s.sessions_created, 1);
}

#[test]
fn any_step_may_fail_terminally() {
    let mut s = init();
    s = step(s, Event::OffsetComputed);
    s = step(s, Event::StepFailed);
    assert_eq!(s.phase, Phase::Failed);
    assert_eq!(s.sessions_created, 0);
}

#[test]
fn out_of_order_event_fails_the_invocation() {
    let s = init();
    let s = step(s, Event::MountConcluded(true));
    assert_eq!(s.phase, Phase::Failed);
    assert_eq!(s.sessions_created, 0);
}
