use rclone_automount::command::u32_to_dec;
use rclone_automount::models::{environment_or_default, Environment, LogLevel, MountPoint, VfsCacheMode};
use rclone_automount::utils::expand_home;

fn bare_mount(remote: &str, dir: &str) -> MountPoint {
    MountPoint {
        enabled: None,
        remote: remote.to_owned(),
        mount_dir: dir.to_owned(),
        allow_other: None,
        allow_non_empty: None,
        allow_root: None,
        default_permissions: None,
        uid: None,
        gid: None,
        umask: None,
        dir_perms: None,
        file_perms: None,
        link_perms: None,
        devname: None,
        mount_case_insensitive: None,
        cache_dir: None,
        vfs_cache_mode: None,
        vfs_cache_max_age: None,
        vfs_cache_max_size: None,
        vfs_cache_min_free_space: None,
        vfs_cache_poll_interval: None,
        buffer_size: None,
        vfs_block_norm_dupes: None,
        vfs_case_insensitive: None,
        vfs_disk_space_total_size: None,
        vfs_fast_fingerprint: None,
        vfs_links: None,
        vfs_metadata_extension: None,
        vfs_read_ahead: None,
        vfs_read_chunk_size: None,
        vfs_read_chunk_size_limit: None,
        vfs_read_chunk_streams: None,
        vfs_read_wait: None,
        vfs_refresh: None,
        vfs_used_is_size: None,
        vfs_write_back: None,
        vfs_write_wait: None,
        write_back_cache: None,
        dir_cache_time: None,
        poll_interval: None,
        attr_timeout: None,
        async_read: None,
        direct_io: None,
        read_only: None,
        no_checksum: None,
        no_modtime: None,
        no_seek: None,
        max_read_ahead: None,
        fuse_flag: None,
        option: None,
        debug_fuse: None,
        log_level: None,
        log_file: None,
    }
}

#[test]
fn environment_defaults_apply_when_unset() {
    let env = Environment::default();
    assert_eq!(env.rclone_bin(), "/usr/bin/rclone");
    assert_eq!(env.rclone_conf(), "~/.config/rclone/rclone.conf");
    assert_eq!(env.fusermount_bin(), "/usr/bin/fusermount");
}

#[test]
fn environment_overrides_take_precedence() {
    let env = Environment {
        rclone_bin: Some("/opt/rclone".to_string()),
        rclone_conf: Some("/etc/rclone.conf".to_string()),
        fusermount_bin: Some("/opt/fusermount".to_string()),
    };
    assert_eq!(env.rclone_bin(), "/opt/rclone");
    assert_eq!(env.rclone_conf(), "/etc/rclone.conf");
    assert_eq!(env.fusermount_bin(), "/opt/fusermount");
}

#[test]
fn environment_or_default_keeps_overrides() {
    let given = environment_or_default(Some(Environment {
        rclone_bin: Some("/opt/rclone".to_string()),
        rclone_conf: None,
        fusermount_bin: None,
    }));
    assert_eq!(given.rclone_bin(), "/opt/rclone");
    let defaulted = environment_or_default(None);
    assert_eq!(defaulted.rclone_bin(), "/usr/bin/rclone");
}

#[test]
fn home_shorthand_expands() {
    let home = Some("/home/user".to_string());
    assert_eq!(expand_home("~/books", &home), "/home/user/books");
    assert_eq!(expand_home("~/", &home), "/home/user/");
    assert_eq!(expand_home("/absolute/path", &home), "/absolute/path");
    assert_eq!(expand_home("~", &home), "~");
    assert_eq!(expand_home("~/books", &None), "~/books");
}

#[test]
fn home_shorthand_joins_without_doubling_the_separator() {
    // a home ending in a separator gains no second one
    assert_eq!(
        expand_home("~/books", &Some("/home/user/".to_string())),
        "/home/user/books"
    );
    // an empty home leaves the remainder as it was, still relative
    assert_eq!(expand_home("~/books", &Some(String::new())), "books");
}

#[test]
fn numbers_spell_in_decimal() {
    assert_eq!(u32_to_dec(0), "0");
    assert_eq!(u32_to_dec(7), "7");
    assert_eq!(u32_to_dec(42), "42");
    assert_eq!(u32_to_dec(1000), "1000");
    assert_eq!(u32_to_dec(4294967295), "4294967295");
}

#[test]
fn cache_modes_and_levels_spell_as_args() {
    assert_eq!(VfsCacheMode::Off.as_arg(), "off");
    assert_eq!(VfsCacheMode::Full.as_arg(), "full");
    assert_eq!(LogLevel::DEBUG.as_arg(), "DEBUG");
    assert_eq!(LogLevel::CRITICAL.as_arg(), "CRITICAL");
}

#[test]
fn bare_mount_invocation_holds_only_the_prefix() {
    let env = Environment::default();
    let home = Some("/home/user".to_string());
    let mp = bare_mount("books:archive", "~/mnt/books");
    let inv = mp.mount_command(&env, &home);
    assert_eq!(inv.program, "/usr/bin/rclone");
    assert_eq!(
        inv.args,
        vec![
            "mount".to_string(),
            "books:archive".to_string(),
            "/home/user/mnt/books".to_string(),
        ]
    );
    assert_eq!(
        inv.env,
        vec![(
            "RCLONE_CONFIG".to_string(),
            "/home/user/.config/rclone/rclone.conf".to_string()
        )]
    );
}

#[test]
fn configured_mount_invocation_lists_every_option_in_order() {
    let env = Environment {
        rclone_bin: Some("~/bin/rclone".to_string()),
        rclone_conf: Some("/etc/rclone.conf".to_string()),
        fusermount_bin: None,
    };
    let home = Some("/home/user".to_string());
    let mut mp = bare_mount("music:lib", "/mnt/music");
    mp.allow_other = Some(true);
    mp.read_only = Some(false);
    mp.async_read = Some(true);
    mp.uid = Some(1000);
    mp.dir_perms = Some("0755".to_string());
    mp.vfs_cache_mode = Some(VfsCacheMode::Writes);
    mp.vfs_read_chunk_streams = Some(4);
    mp.fuse_flag = Some(vec!["sync".to_string(), "noatime".to_string()]);
    mp.option = Some(vec!["rw".to_string()]);
    mp.log_level = Some(LogLevel::INFO);
    mp.log_file = Some("~/rclone.log".to_string());
    let inv = mp.mount_command(&env, &home);
    assert_eq!(inv.program, "/home/user/bin/rclone");
    assert_eq!(
        inv.args,
        vec![
            "mount".to_string(),
            "music:lib".to_string(),
            "/mnt/music".to_string(),
            "--allow-other".to_string(),
            "--async-read".to_string(),
            "true".to_string(),
            "--uid".to_string(),
            "1000".to_string(),
            "--dir-perms".to_string(),
            "0755".to_string(),
            "--vfs-cache-mode".to_string(),
            "writes".to_string(),
            "--vfs-read-chunk-streams".to_string(),
            "4".to_string(),
            "--fuse-flag".to_string(),
            "sync".to_string(),
            "--fuse-flag".to_string(),
            "noatime".to_string(),
            "-o".to_string(),
            "rw".to_string(),
            "--log-level".to_string(),
            "INFO".to_string(),
            "--log-file".to_string(),
            "/home/user/rclone.log".to_string(),
        ]
    );
    assert_eq!(
        inv.env,
        vec![("RCLONE_CONFIG".to_string(), "/etc/rclone.conf".to_string())]
    );
}

#[test]
fn unmount_invocation_targets_the_expanded_dir() {
    let env = Environment::default();
    let home = Some("/home/user".to_string());
    let mp = bare_mount("books:archive", "~/mnt/books");
    let inv = mp.unmount_command(&env, &home);
    assert_eq!(inv.program, "/usr/bin/fusermount");
    // the drain targets the directory the mount invocation mounts at
    assert_eq!(
        inv.args,
        vec!["-u".to_string(), "/home/user/mnt/books".to_string()]
    );
    assert!(inv.env.is_empty());
}
