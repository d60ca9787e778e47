//! Building the external tool's invocations: from a mount point and the
//! environment to a program path, an ordered argument list, and environment
//! variable overrides. Pure construction; nothing here runs a process.

use vstd::prelude::*;

use crate::models::{Environment, LogLevel, MountPoint, VfsCacheMode};
use crate::utils::{expand_home, expand_home_spec, home_view};

verus! {

/// One executable invocation of the external tool.
pub struct Invocation {
    /// The program to launch.
    pub program: String,
    /// Its arguments, in order.
    pub args: Vec<String>,
    /// Environment variable overrides for the child process.
    pub env: Vec<(String, String)>,
}

/// The character sequences of a list of strings.
pub open spec fn string_views(args: Seq<String>) -> Seq<Seq<char>> {
    args.map_values(|s: String| s@)
}

/// Whether an optional boolean is set and true.
pub open spec fn opt_true(v: Option<bool>) -> bool {
    v == Some(true)
}

/// A lone flag, present exactly when its condition holds.
pub open spec fn flag_if(cond: bool, flag: Seq<char>) -> Seq<Seq<char>> {
    if cond {
        seq![flag]
    } else {
        Seq::empty()
    }
}

/// A flag with a string value, present exactly when the value is set.
pub open spec fn opt_arg(v: Option<String>, flag: Seq<char>) -> Seq<Seq<char>> {
    match v {
        Some(s) => seq![flag, s@],
        None => Seq::empty(),
    }
}

/// A flag whose value is a home-expanded path, present when set.
pub open spec fn opt_path_arg(
    v: Option<String>,
    flag: Seq<char>,
    home: Option<Seq<char>>,
) -> Seq<Seq<char>> {
    match v {
        Some(s) => seq![flag, expand_home_spec(s@, home)],
        None => Seq::empty(),
    }
}

/// The decimal digit characters of a number.
pub open spec fn dec_digit(d: nat) -> Seq<char> {
    if d == 0 {
        "0"@
    } else if d == 1 {
        "1"@
    } else if d == 2 {
        "2"@
    } else if d == 3 {
        "3"@
    } else if d == 4 {
        "4"@
    } else if d == 5 {
        "5"@
    } else if d == 6 {
        "6"@
    } else if d == 7 {
        "7"@
    } else if d == 8 {
        "8"@
    } else {
        "9"@
    }
}

/// The usual decimal spelling of a number: no sign, no leading zeros.
pub open spec fn dec_digits(n: nat) -> Seq<char>
    decreases n,
{
    if n < 10 {
        dec_digit(n)
    } else {
        dec_digits(n / 10) + dec_digit(n % 10)
    }
}

/// A flag with a numeric value in decimal, present when set.
pub open spec fn opt_u32_arg(v: Option<u32>, flag: Seq<char>) -> Seq<Seq<char>> {
    match v {
        Some(n) => seq![flag, dec_digits(n as nat)],
        None => Seq::empty(),
    }
}

/// The spelling of a boolean argument value.
pub open spec fn bool_chars(b: bool) -> Seq<char> {
    if b {
        "true"@
    } else {
        "false"@
    }
}

/// A flag with a boolean value spelled out, present when set.
pub open spec fn opt_bool_arg(v: Option<bool>, flag: Seq<char>) -> Seq<Seq<char>> {
    match v {
        Some(b) => seq![flag, bool_chars(b)],
        None => Seq::empty(),
    }
}

/// A flag with a cache-mode value, present when set.
pub open spec fn opt_mode_arg(v: Option<VfsCacheMode>, flag: Seq<char>) -> Seq<Seq<char>> {
    match v {
        Some(m) => seq![flag, m.arg_spec()],
        None => Seq::empty(),
    }
}

/// A flag with a log-level value, present when set.
pub open spec fn opt_level_arg(v: Option<LogLevel>, flag: Seq<char>) -> Seq<Seq<char>> {
    match v {
        Some(l) => seq![flag, l.arg_spec()],
        None => Seq::empty(),
    }
}

/// The flag repeated before each item of a list, in the list's order.
pub open spec fn pair_list_items(flag: Seq<char>, items: Seq<String>) -> Seq<Seq<char>>
    decreases items.len(),
{
    if items.len() == 0 {
        Seq::empty()
    } else {
        pair_list_items(flag, items.drop_last()) + seq![flag, items.last()@]
    }
}

/// The flag-item pairs of an optional list: nothing when unset.
pub open spec fn pair_list(flag: Seq<char>, items: Option<Vec<String>>) -> Seq<Seq<char>> {
    match items {
        Some(v) => pair_list_items(flag, v@),
        None => Seq::empty(),
    }
}

/// Whether an optional boolean is set and true.
fn is_true(v: Option<bool>) -> (r: bool)
    ensures
        r == opt_true(v),
{
    match v {
        Some(b) => b,
        None => false,
    }
}

fn push_one(args: &mut Vec<String>, a: &str)
    ensures
        string_views(final(args)@) == string_views(old(args)@) + seq![a@],
{
    let ghost before = args@;
    args.push(a.to_owned());
    proof {
        assert(string_views(before).len() == before.len());
        assert(string_views(args@) =~= string_views(before) + seq![a@]);
    }
}

fn push_owned(args: &mut Vec<String>, a: String)
    ensures
        string_views(final(args)@) == string_views(old(args)@) + seq![a@],
{
    let ghost before = args@;
    args.push(a);
    proof {
        assert(string_views(before).len() == before.len());
        assert(string_views(args@) =~= string_views(before) + seq![a@]);
    }
}

fn push_pair(args: &mut Vec<String>, flag: &str, value: &str)
    ensures
        string_views(final(args)@) == string_views(old(args)@) + seq![flag@, value@],
{
    let ghost before = args@;
    push_one(args, flag);
    push_one(args, value);
    proof {
        assert((string_views(before) + seq![flag@]) + seq![value@]
            =~= string_views(before) + seq![flag@, value@]);
    }
}

fn push_flag_if(args: &mut Vec<String>, cond: bool, flag: &str)
    ensures
        string_views(final(args)@) == string_views(old(args)@) + flag_if(cond, flag@),
{
    let ghost before = args@;
    if cond {
        push_one(args, flag);
    } else {
        proof {
            assert(string_views(before) + flag_if(cond, flag@) =~= string_views(before));
        }
    }
}

fn push_opt_arg(args: &mut Vec<String>, v: &Option<String>, flag: &str)
    ensures
        string_views(final(args)@) == string_views(old(args)@) + opt_arg(*v, flag@),
{
    let ghost before = args@;
    match v {
        Some(s) => {
            push_pair(args, flag, s.as_str());
        },
        None => {
            proof {
                assert(string_views(before) + opt_arg(*v, flag@) =~= string_views(before));
            }
        },
    }
}

fn push_opt_path_arg(args: &mut Vec<String>, v: &Option<String>, flag: &str, home: &Option<String>)
    ensures
        string_views(final(args)@) == string_views(old(args)@) + opt_path_arg(
            *v,
            flag@,
            home_view(*home),
        ),
{
    let ghost before = args@;
    match v {
        Some(s) => {
            let expanded = expand_home(s.as_str(), home);
            push_one(args, flag);
            push_owned(args, expanded);
            proof {
                assert((string_views(before) + seq![flag@]) + seq![
                    expand_home_spec(s@, home_view(*home)),
                ] =~= string_views(before) + opt_path_arg(*v, flag@, home_view(*home)));
            }
        },
        None => {
            proof {
                assert(string_views(before) + opt_path_arg(*v, flag@, home_view(*home))
                    =~= string_views(before));
            }
        },
    }
}

fn digit_str(d: u32) -> (r: &'static str)
    requires
        d < 10,
    ensures
        r@ == dec_digit(d as nat),
{
    match d {
        0 => "0",
        1 => "1",
        2 => "2",
        3 => "3",
        4 => "4",
        5 => "5",
        6 => "6",
        7 => "7",
        8 => "8",
        _ => "9",
    }
}

fn append_dec(s: &mut String, n: u32)
    ensures
        final(s)@ == old(s)@ + dec_digits(n as nat),
    decreases n,
{
    let ghost before = s@;
    if n >= 10 {
        append_dec(s, n / 10);
        let d = digit_str(n % 10);
        s.append(d);
        proof {
            assert(s@ =~= before + dec_digits(n as nat));
        }
    } else {
        let d = digit_str(n);
        s.append(d);
    }
}

/// The decimal spelling of a number, as the tool expects it on the command
/// line.
pub fn u32_to_dec(n: u32) -> (r: String)
    ensures
        r@ == dec_digits(n as nat),
{
    let mut out = String::new();
    append_dec(&mut out, n);
    proof {
        assert(out@ =~= dec_digits(n as nat));
    }
    out
}

fn push_opt_u32(args: &mut Vec<String>, v: Option<u32>, flag: &str)
    ensures
        string_views(final(args)@) == string_views(old(args)@) + opt_u32_arg(v, flag@),
{
    let ghost before = args@;
    match v {
        Some(n) => {
            let value = u32_to_dec(n);
            push_one(args, flag);
            push_owned(args, value);
            proof {
                assert((string_views(before) + seq![flag@]) + seq![dec_digits(n as nat)]
                    =~= string_views(before) + opt_u32_arg(v, flag@));
            }
        },
        None => {
            proof {
                assert(string_views(before) + opt_u32_arg(v, flag@) =~= string_views(before));
            }
        },
    }
}

fn push_opt_bool(args: &mut Vec<String>, v: Option<bool>, flag: &str)
    ensures
        string_views(final(args)@) == string_views(old(args)@) + opt_bool_arg(v, flag@),
{
    let ghost before = args@;
    match v {
        Some(b) => {
            let value: &str = if b {
                "true"
            } else {
                "false"
            };
            push_pair(args, flag, value);
            proof {
                assert(string_views(before) + seq![flag@, value@]
                    =~= string_views(before) + opt_bool_arg(v, flag@));
            }
        },
        None => {
            proof {
                assert(string_views(before) + opt_bool_arg(v, flag@) =~= string_views(before));
            }
        },
    }
}

fn push_opt_mode(args: &mut Vec<String>, v: &Option<VfsCacheMode>, flag: &str)
    ensures
        string_views(final(args)@) == string_views(old(args)@) + opt_mode_arg(*v, flag@),
{
    let ghost before = args@;
    match v {
        Some(m) => {
            push_pair(args, flag, m.as_arg());
        },
        None => {
            proof {
                assert(string_views(before) + opt_mode_arg(*v, flag@) =~= string_views(before));
            }
        },
    }
}

fn push_opt_level(args: &mut Vec<String>, v: &Option<LogLevel>, flag: &str)
    ensures
        string_views(final(args)@) == string_views(old(args)@) + opt_level_arg(*v, flag@),
{
    let ghost before = args@;
    match v {
        Some(l) => {
            push_pair(args, flag, l.as_arg());
        },
        None => {
            proof {
                assert(string_views(before) + opt_level_arg(*v, flag@) =~= string_views(before));
            }
        },
    }
}

fn push_pair_list(args: &mut Vec<String>, flag: &str, items: &Option<Vec<String>>)
    ensures
        string_views(final(args)@) == string_views(old(args)@) + pair_list(flag@, *items),
{
    let ghost before = args@;
    match items {
        Some(v) => {
            let mut i: usize = 0;
            while i < v.len()
                invariant
                    i <= v@.len(),
                    string_views(args@) == string_views(before) + pair_list_items(
                        flag@,
                        v@.subrange(0, i as int),
                    ),
                decreases v@.len() - i,
            {
                let ghost pre = v@.subrange(0, i as int);
                proof {
                    assert(v@.subrange(0, i + 1).drop_last() =~= pre);
                    assert(v@.subrange(0, i + 1).last() == v@[i as int]);
                }
                push_pair(args, flag, v[i].as_str());
                proof {
                    assert((string_views(before) + pair_list_items(flag@, pre)) + seq![
                        flag@,
                        v@[i as int]@,
                    ] =~= string_views(before) + pair_list_items(flag@, v@.subrange(0, i + 1)));
                }
                i = i + 1;
            }
            proof {
                assert(v@.subrange(0, v@.len() as int) =~= v@);
            }
        },
        None => {
            proof {
                assert(string_views(before) + pair_list(flag@, *items) =~= string_views(before));
            }
        },
    }
}

/// The full argument list of a mount invocation, in the exact order it is
/// handed to the tool: the subcommand, the expanded remote and target, then
/// each optional flag exactly when its field is set.
pub open spec fn mount_args_spec(mp: MountPoint, home: Option<Seq<char>>) -> Seq<Seq<char>> {
    seq![
        "mount"@,
        expand_home_spec(mp.remote@, home),
        expand_home_spec(mp.mount_dir@, home),
    ] + flag_if(opt_true(mp.allow_other), "--allow-other"@) + flag_if(
        opt_true(mp.allow_non_empty),
        "--allow-non-empty"@,
    ) + flag_if(opt_true(mp.allow_root), "--allow-root"@) + flag_if(
        opt_true(mp.default_permissions),
        "--default-permissions"@,
    ) + flag_if(opt_true(mp.debug_fuse), "--debug-fuse"@) + flag_if(
        opt_true(mp.read_only),
        "--read-only"@,
    ) + flag_if(opt_true(mp.no_checksum), "--no-checksum"@) + flag_if(
        opt_true(mp.no_modtime),
        "--no-modtime"@,
    ) + flag_if(opt_true(mp.no_seek), "--no-seek"@) + flag_if(
        opt_true(mp.write_back_cache),
        "--write-back-cache"@,
    ) + flag_if(opt_true(mp.direct_io), "--direct-io"@) + flag_if(
        opt_true(mp.mount_case_insensitive),
        "--mount-case-insensitive"@,
    ) + flag_if(opt_true(mp.vfs_block_norm_dupes), "--vfs-block-norm-dupes"@) + flag_if(
        opt_true(mp.vfs_case_insensitive),
        "--vfs-case-insensitive"@,
    ) + flag_if(opt_true(mp.vfs_fast_fingerprint), "--vfs-fast-fingerprint"@) + flag_if(
        opt_true(mp.vfs_links),
        "--vfs-links"@,
    ) + flag_if(opt_true(mp.vfs_refresh), "--vfs-refresh"@) + flag_if(
        opt_true(mp.vfs_used_is_size),
        "--vfs-used-is-size"@,
    ) + opt_bool_arg(mp.async_read, "--async-read"@) + opt_u32_arg(mp.uid, "--uid"@)
        + opt_u32_arg(mp.gid, "--gid"@) + opt_u32_arg(mp.umask, "--umask"@) + opt_arg(
        mp.dir_perms,
        "--dir-perms"@,
    ) + opt_arg(mp.file_perms, "--file-perms"@) + opt_arg(mp.link_perms, "--link-perms"@)
        + opt_arg(mp.devname, "--devname"@) + opt_arg(mp.cache_dir, "--cache-dir"@) + opt_mode_arg(
        mp.vfs_cache_mode,
        "--vfs-cache-mode"@,
    ) + opt_arg(mp.vfs_cache_max_age, "--vfs-cache-max-age"@) + opt_arg(
        mp.vfs_cache_max_size,
        "--vfs-cache-max-size"@,
    ) + opt_arg(mp.vfs_cache_min_free_space, "--vfs-cache-min-free-space"@) + opt_arg(
        mp.vfs_cache_poll_interval,
        "--vfs-cache-poll-interval"@,
    ) + opt_arg(mp.buffer_size, "--buffer-size"@) + opt_arg(
        mp.vfs_disk_space_total_size,
        "--vfs-disk-space-total-size"@,
    ) + opt_arg(mp.vfs_metadata_extension, "--vfs-metadata-extension"@) + opt_arg(
        mp.vfs_read_ahead,
        "--vfs-read-ahead"@,
    ) + opt_arg(mp.vfs_read_chunk_size, "--vfs-read-chunk-size"@) + opt_arg(
        mp.vfs_read_chunk_size_limit,
        "--vfs-read-chunk-size-limit"@,
    ) + opt_u32_arg(mp.vfs_read_chunk_streams, "--vfs-read-chunk-streams"@) + opt_arg(
        mp.vfs_read_wait,
        "--vfs-read-wait"@,
    ) + opt_arg(mp.vfs_write_back, "--vfs-write-back"@) + opt_arg(
        mp.vfs_write_wait,
        "--vfs-write-wait"@,
    ) + opt_arg(mp.dir_cache_time, "--dir-cache-time"@) + opt_arg(
        mp.poll_interval,
        "--poll-interval"@,
    ) + opt_arg(mp.attr_timeout, "--attr-timeout"@) + opt_arg(
        mp.max_read_ahead,
        "--max-read-ahead"@,
    ) + pair_list("--fuse-flag"@, mp.fuse_flag) + pair_list("-o"@, mp.option) + opt_level_arg(
        mp.log_level,
        "--log-level"@,
    ) + opt_path_arg(mp.log_file, "--log-file"@, home)
}

impl MountPoint {
    /// The invocation that mounts this mount point: the configured tool on
    /// the expanded remote and target with every configured option, and the
    /// tool's configuration file handed down as an environment variable.
    #[verifier::rlimit(100)]
    pub fn mount_command(&self, env: &Environment, home: &Option<String>) -> (inv: Invocation)
    ensures
        inv.program@ == expand_home_spec(env.rclone_bin_spec(), home_view(*home)),
        string_views(inv.args@) == mount_args_spec(*self, home_view(*home)),
        inv.env@.len() == 1,
        inv.env@[0].0@ == "RCLONE_CONFIG"@,
        inv.env@[0].1@ == expand_home_spec(env.rclone_conf_spec(), home_view(*home)),
{
    let program = expand_home(env.rclone_bin(), home);
    let mut args: Vec<String> = Vec::new();
    push_one(&mut args, "mount");
    push_owned(&mut args, expand_home(self.remote.as_str(), home));
    push_owned(&mut args, expand_home(self.mount_dir.as_str(), home));
    proof {
        assert(string_views(args@) =~= seq![
            "mount"@,
            expand_home_spec(self.remote@, home_view(*home)),
            expand_home_spec(self.mount_dir@, home_view(*home)),
        ]);
    }
    push_flag_if(&mut args, is_true(self.allow_other), "--allow-other");
    push_flag_if(&mut args, is_true(self.allow_non_empty), "--allow-non-empty");
    push_flag_if(&mut args, is_true(self.allow_root), "--allow-root");
    push_flag_if(&mut args, is_true(self.default_permissions), "--default-permissions");
    push_flag_if(&mut args, is_true(self.debug_fuse), "--debug-fuse");
    push_flag_if(&mut args, is_true(self.read_only), "--read-only");
    push_flag_if(&mut args, is_true(self.no_checksum), "--no-checksum");
    push_flag_if(&mut args, is_true(self.no_modtime), "--no-modtime");
    push_flag_if(&mut args, is_true(self.no_seek), "--no-seek");
    push_flag_if(&mut args, is_true(self.write_back_cache), "--write-back-cache");
    push_flag_if(&mut args, is_true(self.direct_io), "--direct-io");
    push_flag_if(&mut args, is_true(self.mount_case_insensitive), "--mount-case-insensitive");
    push_flag_if(&mut args, is_true(self.vfs_block_norm_dupes), "--vfs-block-norm-dupes");
    push_flag_if(&mut args, is_true(self.vfs_case_insensitive), "--vfs-case-insensitive");
    push_flag_if(&mut args, is_true(self.vfs_fast_fingerprint), "--vfs-fast-fingerprint");
    push_flag_if(&mut args, is_true(self.vfs_links), "--vfs-links");
    push_flag_if(&mut args, is_true(self.vfs_refresh), "--vfs-refresh");
    push_flag_if(&mut args, is_true(self.vfs_used_is_size), "--vfs-used-is-size");
    push_opt_bool(&mut args, self.async_read, "--async-read");
    push_opt_u32(&mut args, self.uid, "--uid");
    push_opt_u32(&mut args, self.gid, "--gid");
    push_opt_u32(&mut args, self.umask, "--umask");
    push_opt_arg(&mut args, &self.dir_perms, "--dir-perms");
    push_opt_arg(&mut args, &self.file_perms, "--file-perms");
    push_opt_arg(&mut args, &self.link_perms, "--link-perms");
    push_opt_arg(&mut args, &self.devname, "--devname");
    push_opt_arg(&mut args, &self.cache_dir, "--cache-dir");
    push_opt_mode(&mut args, &self.vfs_cache_mode, "--vfs-cache-mode");
    push_opt_arg(&mut args, &self.vfs_cache_max_age, "--vfs-cache-max-age");
    push_opt_arg(&mut args, &self.vfs_cache_max_size, "--vfs-cache-max-size");
    push_opt_arg(&mut args, &self.vfs_cache_min_free_space, "--vfs-cache-min-free-space");
    push_opt_arg(&mut args, &self.vfs_cache_poll_interval, "--vfs-cache-poll-interval");
    push_opt_arg(&mut args, &self.buffer_size, "--buffer-size");
    push_opt_arg(&mut args, &self.vfs_disk_space_total_size, "--vfs-disk-space-total-size");
    push_opt_arg(&mut args, &self.vfs_metadata_extension, "--vfs-metadata-extension");
    push_opt_arg(&mut args, &self.vfs_read_ahead, "--vfs-read-ahead");
    push_opt_arg(&mut args, &self.vfs_read_chunk_size, "--vfs-read-chunk-size");
    push_opt_arg(&mut args, &self.vfs_read_chunk_size_limit, "--vfs-read-chunk-size-limit");
    push_opt_u32(&mut args, self.vfs_read_chunk_streams, "--vfs-read-chunk-streams");
    push_opt_arg(&mut args, &self.vfs_read_wait, "--vfs-read-wait");
    push_opt_arg(&mut args, &self.vfs_write_back, "--vfs-write-back");
    push_opt_arg(&mut args, &self.vfs_write_wait, "--vfs-write-wait");
    push_opt_arg(&mut args, &self.dir_cache_time, "--dir-cache-time");
    push_opt_arg(&mut args, &self.poll_interval, "--poll-interval");
    push_opt_arg(&mut args, &self.attr_timeout, "--attr-timeout");
    push_opt_arg(&mut args, &self.max_read_ahead, "--max-read-ahead");
    push_pair_list(&mut args, "--fuse-flag", &self.fuse_flag);
    push_pair_list(&mut args, "-o", &self.option);
    push_opt_level(&mut args, &self.log_level, "--log-level");
    push_opt_path_arg(&mut args, &self.log_file, "--log-file", home);
    let conf = expand_home(env.rclone_conf(), home);
    let mut env_vars: Vec<(String, String)> = Vec::new();
    env_vars.push(("RCLONE_CONFIG".to_owned(), conf));
    Invocation { program, args, env: env_vars }
}

    /// The invocation that unmounts this mount point: the unmount helper on
    /// the expanded target directory — the same directory the mount
    /// invocation mounts at, so the drain releases what was mounted.
    pub fn unmount_command(&self, env: &Environment, home: &Option<String>) -> (inv: Invocation)
    ensures
        inv.program@ == expand_home_spec(env.fusermount_bin_spec(), home_view(*home)),
        string_views(inv.args@) == seq![
            "-u"@,
            expand_home_spec(self.mount_dir@, home_view(*home)),
        ],
        inv.env@.len() == 0,
{
    let program = expand_home(env.fusermount_bin(), home);
    let mut args: Vec<String> = Vec::new();
    push_one(&mut args, "-u");
    push_owned(&mut args, expand_home(self.mount_dir.as_str(), home));
    proof {
        assert(string_views(args@) =~= seq![
            "-u"@,
            expand_home_spec(self.mount_dir@, home_view(*home)),
        ]);
    }
    Invocation { program, args, env: Vec::new() }
}
}

} // verus!
