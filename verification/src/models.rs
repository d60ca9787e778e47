//! The configuration model: tool paths, mount-point records, and the fleet
//! of enabled mount points derived from them.

use vstd::prelude::*;

verus! {

/// Optional overrides for the paths of the external tools; each has a
/// hard-coded default when absent. Immutable after load.
pub struct Environment {
    pub rclone_bin: Option<String>,
    pub rclone_conf: Option<String>,
    pub fusermount_bin: Option<String>,
}

impl Environment {
    /// An environment with no overrides: every tool path takes its default.
    pub fn default() -> (e: Environment)
        ensures
            e.rclone_bin is None,
            e.rclone_conf is None,
            e.fusermount_bin is None,
    {
        Environment { rclone_bin: None, rclone_conf: None, fusermount_bin: None }
    }

    /// The configured path of the mount tool, or its default.
    pub fn rclone_bin(&self) -> (r: &str)
        ensures
            r@ == self.rclone_bin_spec(),
    {
        match &self.rclone_bin {
            Some(s) => s.as_str(),
            None => "/usr/bin/rclone",
        }
    }

    pub open spec fn rclone_bin_spec(self) -> Seq<char> {
        match self.rclone_bin {
            Some(s) => s@,
            None => "/usr/bin/rclone"@,
        }
    }

    /// The configured path of the mount tool's configuration file, or its default.
    pub fn rclone_conf(&self) -> (r: &str)
        ensures
            r@ == self.rclone_conf_spec(),
    {
        match &self.rclone_conf {
            Some(s) => s.as_str(),
            None => "~/.config/rclone/rclone.conf",
        }
    }

    pub open spec fn rclone_conf_spec(self) -> Seq<char> {
        match self.rclone_conf {
            Some(s) => s@,
            None => "~/.config/rclone/rclone.conf"@,
        }
    }

    /// The configured path of the unmount helper, or its default.
    pub fn fusermount_bin(&self) -> (r: &str)
        ensures
            r@ == self.fusermount_bin_spec(),
    {
        match &self.fusermount_bin {
            Some(s) => s.as_str(),
            None => "/usr/bin/fusermount",
        }
    }

    pub open spec fn fusermount_bin_spec(self) -> Seq<char> {
        match self.fusermount_bin {
            Some(s) => s@,
            None => "/usr/bin/fusermount"@,
        }
    }
}

/// Cache mode handed to the mount tool.
#[derive(Debug, Clone, PartialEq, Eq, Structural)]
pub enum VfsCacheMode {
    Off,
    Minimal,
    Writes,
    Full,
}

impl VfsCacheMode {
    /// The spelling of this mode on the mount tool's command line.
    pub fn as_arg(&self) -> (r: &str)
        ensures
            r@ == self.arg_spec(),
    {
        match self {
            VfsCacheMode::Off => "off",
            VfsCacheMode::Minimal => "minimal",
            VfsCacheMode::Writes => "writes",
            VfsCacheMode::Full => "full",
        }
    }

    pub open spec fn arg_spec(self) -> Seq<char> {
        match self {
            VfsCacheMode::Off => "off"@,
            VfsCacheMode::Minimal => "minimal"@,
            VfsCacheMode::Writes => "writes"@,
            VfsCacheMode::Full => "full"@,
        }
    }
}

/// Logging level handed to the mount tool.
#[derive(Debug, Clone, PartialEq, Eq, Structural)]
pub enum LogLevel {
    DEBUG,
    INFO,
    NOTICE,
    ERROR,
    CRITICAL,
}

impl LogLevel {
    /// The spelling of this level on the mount tool's command line.
    pub fn as_arg(&self) -> (r: &str)
        ensures
            r@ == self.arg_spec(),
    {
        match self {
            LogLevel::DEBUG => "DEBUG",
            LogLevel::INFO => "INFO",
            LogLevel::NOTICE => "NOTICE",
            LogLevel::ERROR => "ERROR",
            LogLevel::CRITICAL => "CRITICAL",
        }
    }

    pub open spec fn arg_spec(self) -> Seq<char> {
        match self {
            LogLevel::DEBUG => "DEBUG"@,
            LogLevel::INFO => "INFO"@,
            LogLevel::NOTICE => "NOTICE"@,
            LogLevel::ERROR => "ERROR"@,
            LogLevel::CRITICAL => "CRITICAL"@,
        }
    }
}

/// One configured mount point. Immutable after load.
pub struct MountPoint {
    pub enabled: Option<bool>,
    pub remote: String,
    pub mount_dir: String,

    pub allow_other: Option<bool>,
    pub allow_non_empty: Option<bool>,
    pub allow_root: Option<bool>,
    pub default_permissions: Option<bool>,
    pub uid: Option<u32>,
    pub gid: Option<u32>,
    pub umask: Option<u32>,
    pub dir_perms: Option<String>,
    pub file_perms: Option<String>,
    pub link_perms: Option<String>,
    pub devname: Option<String>,
    pub mount_case_insensitive: Option<bool>,

    pub cache_dir: Option<String>,
    pub vfs_cache_mode: Option<VfsCacheMode>,
    pub vfs_cache_max_age: Option<String>,
    pub vfs_cache_max_size: Option<String>,
    pub vfs_cache_min_free_space: Option<String>,
    pub vfs_cache_poll_interval: Option<String>,
    pub buffer_size: Option<String>,
    pub vfs_block_norm_dupes: Option<bool>,
    pub vfs_case_insensitive: Option<bool>,
    pub vfs_disk_space_total_size: Option<String>,
    pub vfs_fast_fingerprint: Option<bool>,
    pub vfs_links: Option<bool>,
    pub vfs_metadata_extension: Option<String>,
    pub vfs_read_ahead: Option<String>,
    pub vfs_read_chunk_size: Option<String>,
    pub vfs_read_chunk_size_limit: Option<String>,
    pub vfs_read_chunk_streams: Option<u32>,
    pub vfs_read_wait: Option<String>,
    pub vfs_refresh: Option<bool>,
    pub vfs_used_is_size: Option<bool>,
    pub vfs_write_back: Option<String>,
    pub vfs_write_wait: Option<String>,
    pub write_back_cache: Option<bool>,

    pub dir_cache_time: Option<String>,
    pub poll_interval: Option<String>,
    pub attr_timeout: Option<String>,

    pub async_read: Option<bool>,
    pub direct_io: Option<bool>,
    pub read_only: Option<bool>,
    pub no_checksum: Option<bool>,
    pub no_modtime: Option<bool>,
    pub no_seek: Option<bool>,
    pub max_read_ahead: Option<String>,
    pub fuse_flag: Option<Vec<String>>,
    pub option: Option<Vec<String>>,
    pub debug_fuse: Option<bool>,

    pub log_level: Option<LogLevel>,
    pub log_file: Option<String>,
}

impl MountPoint {
    pub open spec fn enabled_spec(self) -> bool {
        match self.enabled {
            Some(b) => b,
            None => true,
        }
    }

    /// A mount point is enabled unless its configuration says otherwise.
    pub fn is_enabled(&self) -> (r: bool)
        ensures
            r == self.enabled_spec(),
    {
        match self.enabled {
            Some(b) => b,
            None => true,
        }
    }
}

/// The parsed configuration document: an optional environment block and
/// the configured mount points, keyed by their unique names.
pub struct Config {
    pub environment: Option<Environment>,
    pub mountpoints: Vec<(String, MountPoint)>,
}

/// The configured environment, or the all-defaults one when the document
/// has no environment block.
pub fn environment_or_default(e: Option<Environment>) -> (r: Environment)
    ensures
        match e {
            Some(v) => r == v,
            None => r.rclone_bin is None && r.rclone_conf is None && r.fusermount_bin is None,
        },
{
    match e {
        Some(v) => v,
        None => Environment::default(),
    }
}

/// The names of a sequence of named mount points, as sequences of characters.
pub open spec fn names_of(entries: Seq<(String, MountPoint)>) -> Seq<Seq<char>> {
    entries.map_values(|e: (String, MountPoint)| e.0@)
}

/// The subsequence of entries that are enabled, in their original order.
pub open spec fn enabled_entries(entries: Seq<(String, MountPoint)>) -> Seq<(String, MountPoint)>
    decreases entries.len(),
{
    if entries.len() == 0 {
        Seq::empty()
    } else if entries.last().1.enabled_spec() {
        enabled_entries(entries.drop_last()).push(entries.last())
    } else {
        enabled_entries(entries.drop_last())
    }
}

/// The names of the entries that are disabled, in their original order.
pub open spec fn disabled_names(entries: Seq<(String, MountPoint)>) -> Seq<Seq<char>>
    decreases entries.len(),
{
    if entries.len() == 0 {
        Seq::empty()
    } else if entries.last().1.enabled_spec() {
        disabled_names(entries.drop_last())
    } else {
        disabled_names(entries.drop_last()).push(entries.last().0@)
    }
}

/// The fleet: the enabled mount points, keyed by name, derived once from
/// the configuration at startup and read-only afterwards.
pub struct Fleet {
    pub entries: Vec<(String, MountPoint)>,
}

impl Fleet {
    /// The fleet's mount-point names, in order.
    pub open spec fn names(self) -> Seq<Seq<char>> {
        names_of(self.entries@)
    }

    /// The fleet's names as a set.
    pub open spec fn name_set(self) -> Set<Seq<char>> {
        self.names().to_set()
    }

    /// Names are unique and every entry is enabled.
    pub open spec fn wf(self) -> bool {
        &&& self.names().no_duplicates()
        &&& forall|i: int|
            0 <= i < self.entries@.len() ==> (#[trigger] self.entries@[i]).1.enabled_spec()
    }

    /// Builds the fleet from the configured mount points: enabled entries
    /// are kept in order, disabled entries are dropped, and the names of the
    /// dropped entries are returned so the caller can note each of them.
    pub fn from_config(mountpoints: Vec<(String, MountPoint)>) -> (r: (Fleet, Vec<String>))
        requires
            names_of(mountpoints@).no_duplicates(),
        ensures
            r.0.entries@ == enabled_entries(mountpoints@),
            r.1@.map_values(|n: String| n@) == disabled_names(mountpoints@),
            r.0.wf(),
    {
        let ghost all = mountpoints@;
        let mut remaining = mountpoints;
        // Entries are taken from the back, so both piles come out reversed.
        let mut kept_rev: Vec<(String, MountPoint)> = Vec::new();
        let mut dropped_rev: Vec<String> = Vec::new();
        while remaining.len() > 0
            invariant
                remaining@ == all.subrange(0, remaining@.len() as int),
                remaining@.len() <= all.len(),
                enabled_entries(all) =~= enabled_entries(remaining@) + kept_rev@.reverse(),
                disabled_names(all) =~= disabled_names(remaining@)
                    + dropped_rev@.map_values(|s: String| s@).reverse(),
            decreases remaining@.len(),
        {
            let ghost before = remaining@;
            let entry = remaining.pop().unwrap();
            proof {
                assert(before.drop_last() =~= remaining@);
                assert(remaining@ =~= all.subrange(0, remaining@.len() as int));
            }
            if entry.1.is_enabled() {
                kept_rev.push(entry);
                proof {
                    assert(enabled_entries(before) + kept_rev@.drop_last().reverse()
                        =~= enabled_entries(remaining@) + kept_rev@.reverse());
                }
            } else {
                dropped_rev.push(entry.0);
                proof {
                    let names_now = dropped_rev@.map_values(|s: String| s@);
                    assert(names_now.drop_last()
                        =~= dropped_rev@.drop_last().map_values(|s: String| s@));
                    assert(disabled_names(before)
                            + dropped_rev@.drop_last().map_values(|s: String| s@).reverse()
                        =~= disabled_names(remaining@) + names_now.reverse());
                }
            }
        }
        let kept = reverse_vec(kept_rev);
        let dropped = reverse_vec(dropped_rev);
        proof {
            assert(dropped@.map_values(|s: String| s@)
                =~= dropped_rev@.map_values(|s: String| s@).reverse());
        }
        proof {
            assert(kept@ =~= enabled_entries(all));
            assert(dropped@.map_values(|s: String| s@) =~= disabled_names(all));
            lemma_enabled_entries_names(all);
        }
        (Fleet { entries: kept }, dropped)
    }

    /// The fleet's mount-point names as owned strings, in order.
    pub fn names_vec(&self) -> (r: Vec<String>)
        ensures
            r@.map_values(|s: String| s@) == self.names(),
    {
        let mut out: Vec<String> = Vec::new();
        let mut i: usize = 0;
        while i < self.entries.len()
            invariant
                i <= self.entries@.len(),
                out@.map_values(|s: String| s@) == names_of(self.entries@.subrange(0, i as int)),
            decreases self.entries@.len() - i,
        {
            let ghost old_out = out@;
            proof {
                assert(old_out.map_values(|s: String| s@).len()
                    == names_of(self.entries@.subrange(0, i as int)).len());
                assert(old_out.len() == i);
            }
            out.push(self.entries[i].0.clone());
            proof {
                let lhs = out@.map_values(|s: String| s@);
                let rhs = names_of(self.entries@.subrange(0, i + 1));
                assert(out@.len() == i + 1);
                assert(lhs.len() == rhs.len());
                assert forall|j: int| 0 <= j < lhs.len() implies lhs[j] == rhs[j] by {
                    assert(rhs[j] == self.entries@.subrange(0, i + 1)[j].0@);
                    if j < i {
                        assert(lhs[j] == out@[j]@);
                        assert(out@[j] == old_out[j]);
                        assert(old_out.map_values(|s: String| s@)[j] == out@[j]@);
                        assert(names_of(self.entries@.subrange(0, i as int))[j]
                            == self.entries@.subrange(0, i as int)[j].0@);
                    } else {
                        assert(lhs[j] == out@[i as int]@);
                        assert(out@[i as int]@ == self.entries@[i as int].0@);
                    }
                }
                assert(lhs =~= rhs);
            }
            i = i + 1;
        }
        proof {
            assert(self.entries@.subrange(0, self.entries@.len() as int) =~= self.entries@);
            assert(out@.map_values(|s: String| s@) =~~= self.names());
        }
        out
    }

    /// How many mount points the fleet holds.
    pub fn len(&self) -> (n: usize)
        ensures
            n == self.entries@.len(),
    {
        self.entries.len()
    }
}

/// The enabled entries keep their names unique and stay enabled.
pub proof fn lemma_enabled_entries_names(entries: Seq<(String, MountPoint)>)
    requires
        names_of(entries).no_duplicates(),
    ensures
        forall|i: int|
            0 <= i < enabled_entries(entries).len()
                ==> (#[trigger] enabled_entries(entries)[i]).1.enabled_spec(),
        forall|i: int|
            0 <= i < enabled_entries(entries).len()
                ==> names_of(entries).contains((#[trigger] enabled_entries(entries)[i]).0@),
        names_of(enabled_entries(entries)).no_duplicates(),
    decreases entries.len(),
{
    if entries.len() > 0 {
        let pre = entries.drop_last();
        assert(names_of(pre) =~= names_of(entries).drop_last());
        lemma_enabled_entries_names(pre);
        let kept = enabled_entries(entries);
        if entries.last().1.enabled_spec() {
            assert forall|i: int| 0 <= i < kept.len() implies
                names_of(entries).contains((#[trigger] kept[i]).0@) by {
                if i < kept.len() - 1 {
                    assert(kept[i] == enabled_entries(pre)[i]);
                    let j = choose|j: int|
                        0 <= j < names_of(pre).len() && names_of(pre)[j] == kept[i].0@;
                    assert(names_of(entries)[j] == kept[i].0@);
                } else {
                    assert(kept[i] == entries.last());
                    assert(names_of(entries).last() == entries.last().0@);
                }
            }
            assert forall|i: int, j: int| 0 <= i < j < names_of(kept).len() implies
                names_of(kept)[i] != names_of(kept)[j] by {
                if j == kept.len() - 1 {
                    // the last name is new: it does not occur among the earlier entries
                    assert(kept[i] == enabled_entries(pre)[i]);
                    let k = choose|k: int|
                        0 <= k < names_of(pre).len() && names_of(pre)[k] == kept[i].0@;
                    assert(names_of(entries)[k] == kept[i].0@);
                    assert(names_of(entries).last() == entries.last().0@);
                    assert(k < names_of(entries).len() - 1);
                } else {
                    assert(kept[i] == enabled_entries(pre)[i]);
                    assert(kept[j] == enabled_entries(pre)[j]);
                    assert(names_of(enabled_entries(pre))[i] == kept[i].0@);
                    assert(names_of(enabled_entries(pre))[j] == kept[j].0@);
                }
            }
        } else {
            assert(kept == enabled_entries(pre));
        }
    }
}

/// Whether the mount-point names are pairwise distinct: the precondition of
/// fleet construction, which callers can test before building.
pub fn names_unique(entries: &Vec<(String, MountPoint)>) -> (r: bool)
    ensures
        r == names_of(entries@).no_duplicates(),
{
    let ghost names = names_of(entries@);
    let n = entries.len();
    let mut i: usize = 0;
    while i < n
        invariant
            n == entries@.len(),
            i <= n,
            forall|p: int, q: int| 0 <= p < q < i ==> names[p] != names[q],
            names == names_of(entries@),
        decreases n - i,
    {
        let mut j: usize = 0;
        while j < i
            invariant
                n == entries@.len(),
                i < n,
                j <= i,
                forall|p: int| 0 <= p < j ==> names[p] != names[i as int],
                names == names_of(entries@),
            decreases i - j,
        {
            if entries[j].0 == entries[i].0 {
                proof {
                    assert(names[j as int] == names[i as int]);
                }
                return false;
            }
            j = j + 1;
        }
        i = i + 1;
    }
    true
}

/// Reverses a vector by moving its elements.
fn reverse_vec<T>(v: Vec<T>) -> (r: Vec<T>)
    ensures
        r@ == v@.reverse(),
{
    let ghost all = v@;
    let mut v = v;
    let mut out: Vec<T> = Vec::new();
    while v.len() > 0
        invariant
            v@ == all.subrange(0, v@.len() as int),
            v@.len() <= all.len(),
            out@ =~= all.reverse().subrange(0, out@.len() as int),
            out@.len() + v@.len() == all.len(),
        decreases v@.len(),
    {
        let ghost before = v@;
        let x = v.pop().unwrap();
        proof {
            assert(before.drop_last() =~= v@);
            assert(v@ =~= all.subrange(0, v@.len() as int));
            assert(x == all.reverse()[out@.len() as int]);
        }
        out.push(x);
        proof {
            assert(out@ =~= all.reverse().subrange(0, out@.len() as int));
        }
    }
    proof {
        assert(out@ =~= all.reverse());
    }
    out
}

} // verus!
