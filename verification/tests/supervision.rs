use rclone_automount::coordinator::{Action, FleetEvent, Phase, Supervision};
use rclone_automount::failures::FailedSet;
use rclone_automount::models::{names_unique, Fleet, MountPoint};
use rclone_automount::supervise::{
    check_mountpoint_dir, classify_mount_exit, exit_is_expected, DirProbe, MountError, ProcessExit,
};

fn plain_mount(remote: &str, dir: &str, enabled: Option<bool>) -> MountPoint {
    MountPoint {
        enabled,
        remote: remote.to_owned(),
        mount_dir: dir.to_owned(),
        allow_other: None,
        allow_non_empty: None,
        allow_root: None,
        default_permissions: None,
        uid: None,
        gid: None,
        umask: None,
        dir_perms: None,
        file_perms: None,
        link_perms: None,
        devname: None,
        mount_case_insensitive: None,
        cache_dir: None,
        vfs_cache_mode: None,
        vfs_cache_max_age: None,
        vfs_cache_max_size: None,
        vfs_cache_min_free_space: None,
        vfs_cache_poll_interval: None,
        buffer_size: None,
        vfs_block_norm_dupes: None,
        vfs_case_insensitive: None,
        vfs_disk_space_total_size: None,
        vfs_fast_fingerprint: None,
        vfs_links: None,
        vfs_metadata_extension: None,
        vfs_read_ahead: None,
        vfs_read_chunk_size: None,
        vfs_read_chunk_size_limit: None,
        vfs_read_chunk_streams: None,
        vfs_read_wait: None,
        vfs_refresh: None,
        vfs_used_is_size: None,
        vfs_write_back: None,
        vfs_write_wait: None,
        write_back_cache: None,
        dir_cache_time: None,
        poll_interval: None,
        attr_timeout: None,
        async_read: None,
        direct_io: None,
        read_only: None,
        no_checksum: None,
        no_modtime: None,
        no_seek: None,
        max_read_ahead: None,
        fuse_flag: None,
        option: None,
        debug_fuse: None,
        log_level: None,
        log_file: None,
    }
}

fn fleet_of(names: &[&str]) -> Fleet {
    let entries: Vec<(String, MountPoint)> = names
        .iter()
        .map(|n| (n.to_string(), plain_mount("remote:data", "/mnt/data", None)))
        .collect();
    assert!(names_unique(&entries));
    let (fleet, dropped) = Fleet::from_config(entries);
    assert!(dropped.is_empty());
    fleet
}

#[test]
fn expected_exit_codes_classify_as_success() {
    assert!(exit_is_expected(0));
    assert!(exit_is_expected(130));
    assert!(exit_is_expected(143));
    assert!(exit_is_expected(128));
    assert!(classify_mount_exit(ProcessExit::Code(0)).is_ok());
    assert!(classify_mount_exit(ProcessExit::Code(130)).is_ok());
    assert!(classify_mount_exit(ProcessExit::Code(143)).is_ok());
}

#[test]
fn unexpected_exit_codes_classify_as_failure() {
    assert!(!exit_is_expected(1));
    assert!(!exit_is_expected(255));
    assert_eq!(
        classify_mount_exit(ProcessExit::Code(1)),
        Err(MountError::UnexpectedExit(1))
    );
    assert_eq!(
        classify_mount_exit(ProcessExit::Code(255)),
        Err(MountError::UnexpectedExit(255))
    );
    assert_eq!(
        classify_mount_exit(ProcessExit::LaunchError),
        Err(MountError::LaunchFailed)
    );
    assert_eq!(
        classify_mount_exit(ProcessExit::SignalOnly),
        Err(MountError::KilledBySignal)
    );
}

#[test]
fn missing_mount_dir_is_a_precondition_error() {
    assert_eq!(
        check_mountpoint_dir(DirProbe::Missing),
        Err(MountError::MountDirMissing)
    );
    assert_eq!(
        check_mountpoint_dir(DirProbe::NotADirectory),
        Err(MountError::MountDirNotADirectory)
    );
    assert!(check_mountpoint_dir(DirProbe::IsDirectory).is_ok());
}

#[test]
fn failed_set_insert_is_idempotent() {
    let mut failed = FailedSet::new();
    assert_eq!(failed.len(), 0);
    assert!(failed.insert("books".to_string()));
    assert_eq!(failed.len(), 1);
    assert!(!failed.insert("books".to_string()));
    assert_eq!(failed.len(), 1);
    assert!(failed.contains(&"books".to_string()));
    assert!(!failed.contains(&"music".to_string()));
}

#[test]
fn all_failures_abort_exactly_once() {
    let fleet = fleet_of(&["a", "b", "c"]);
    let mut sup = Supervision::new(&fleet);
    assert_eq!(sup.fleet_len(), 3);
    assert_eq!(
        sup.on_event(FleetEvent::MountFailed("b".to_string())),
        Action::Continue
    );
    assert_eq!(
        sup.on_event(FleetEvent::MountFailed("a".to_string())),
        Action::Continue
    );
    // a repeated failure of the same mount point does not advance the count
    assert_eq!(
        sup.on_event(FleetEvent::MountFailed("a".to_string())),
        Action::Continue
    );
    assert_eq!(sup.failed_len(), 2);
    assert_eq!(
        sup.on_event(FleetEvent::MountFailed("c".to_string())),
        Action::AbortProcess
    );
    assert_eq!(sup.phase(), Phase::Aborted);
    // the abort is latched: no later event hands it out again
    assert_eq!(
        sup.on_event(FleetEvent::MountFailed("c".to_string())),
        Action::Continue
    );
    assert_eq!(sup.phase(), Phase::Aborted);
}

#[test]
fn single_fleet_member_failing_aborts() {
    let fleet = fleet_of(&["only"]);
    let mut sup = Supervision::new(&fleet);
    assert_eq!(
        sup.on_event(FleetEvent::MountFailed("only".to_string())),
        Action::AbortProcess
    );
    assert_eq!(sup.phase(), Phase::Aborted);
}

#[test]
fn no_signal_means_no_drain() {
    let fleet = fleet_of(&["a", "b"]);
    let mut sup = Supervision::new(&fleet);
    assert_eq!(
        sup.on_event(FleetEvent::MountSucceeded("a".to_string())),
        Action::Continue
    );
    assert_eq!(
        sup.on_event(FleetEvent::MountFailed("b".to_string())),
        Action::Continue
    );
    assert_eq!(sup.phase(), Phase::Running);
}

#[test]
fn signal_begins_the_drain_once() {
    let fleet = fleet_of(&["a", "b"]);
    let mut sup = Supervision::new(&fleet);
    assert_eq!(sup.on_event(FleetEvent::SignalReceived), Action::BeginDrain);
    assert_eq!(sup.phase(), Phase::Draining);
    // the drain is terminal: more signals and failures change nothing
    assert_eq!(sup.on_event(FleetEvent::SignalReceived), Action::Continue);
    assert_eq!(
        sup.on_event(FleetEvent::MountFailed("a".to_string())),
        Action::Continue
    );
    assert_eq!(sup.failed_len(), 0);
    assert_eq!(sup.phase(), Phase::Draining);
}

#[test]
fn drain_skips_failed_and_waits_for_all() {
    let fleet = fleet_of(&["a", "b", "c"]);
    let mut sup = Supervision::new(&fleet);
    assert_eq!(
        sup.on_event(FleetEvent::MountFailed("b".to_string())),
        Action::Continue
    );
    assert_eq!(sup.on_event(FleetEvent::SignalReceived), Action::BeginDrain);
    let plan = sup.drain_plan();
    assert_eq!(plan.to_unmount, vec!["a".to_string(), "c".to_string()]);
    assert_eq!(plan.skipped, vec!["b".to_string()]);
    assert_eq!(plan.tasks_to_await, 3);
}

#[test]
fn disabled_mount_points_are_dropped_from_the_fleet() {
    let entries = vec![
        ("a".to_string(), plain_mount("r:a", "/mnt/a", Some(true))),
        ("b".to_string(), plain_mount("r:b", "/mnt/b", None)),
        ("c".to_string(), plain_mount("r:c", "/mnt/c", Some(false))),
    ];
    assert!(names_unique(&entries));
    let (fleet, dropped) = Fleet::from_config(entries);
    assert_eq!(fleet.len(), 2);
    assert_eq!(dropped, vec!["c".to_string()]);
    let sup = Supervision::new(&fleet);
    assert_eq!(sup.fleet_len(), 2);
    assert_eq!(sup.failed_len(), 0);
}

#[test]
fn one_failure_of_two_drains_only_the_survivor() {
    let fleet = fleet_of(&["a", "b"]);
    let mut sup = Supervision::new(&fleet);
    assert_eq!(
        sup.on_event(FleetEvent::MountSucceeded("a".to_string())),
        Action::Continue
    );
    assert_eq!(
        sup.on_event(FleetEvent::MountFailed("b".to_string())),
        Action::Continue
    );
    assert_eq!(sup.phase(), Phase::Running);
    assert!(sup.failed_contains(&"b".to_string()));
    assert!(!sup.failed_contains(&"a".to_string()));
    assert_eq!(sup.on_event(FleetEvent::SignalReceived), Action::BeginDrain);
    let plan = sup.drain_plan();
    assert_eq!(plan.to_unmount, vec!["a".to_string()]);
    assert_eq!(plan.skipped, vec!["b".to_string()]);
    assert_eq!(plan.tasks_to_await, 2);
}

#[test]
fn duplicate_names_are_detected() {
    let entries = vec![
        ("a".to_string(), plain_mount("r:a", "/mnt/a", None)),
        ("a".to_string(), plain_mount("r:b", "/mnt/b", None)),
    ];
    assert!(!names_unique(&entries));
}

#[test]
fn mount_errors_describe_themselves() {
    assert_eq!(
        MountError::MountDirMissing.describe(),
        "the mountpoint directory does not exist"
    );
    assert_eq!(
        MountError::UnexpectedExit(1).describe(),
        "the mount command exited with an unexpected status"
    );
}

#[test]
fn mount_error_messages_carry_the_exit_code() {
    assert_eq!(
        MountError::UnexpectedExit(1).message(),
        "the mount command exited with unexpected status 1"
    );
    assert_eq!(
        MountError::UnexpectedExit(255).message(),
        "the mount command exited with unexpected status 255"
    );
    assert_eq!(
        MountError::UnexpectedExit(-7).message(),
        "the mount command exited with unexpected status -7"
    );
    assert_eq!(
        MountError::LaunchFailed.message(),
        "the mount command could not be started"
    );
}
