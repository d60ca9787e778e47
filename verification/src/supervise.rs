//! Per-mount-point supervision decisions: the precondition on the target
//! directory, and the classification of the mount process's outcome.

use vstd::prelude::*;

use crate::command::{dec_digits, u32_to_dec};

verus! {

/// Why one mount point's supervisor gave up on it.
#[derive(Debug, Clone, PartialEq, Eq, Structural)]
pub enum MountError {
    /// The target directory does not exist; no process was started.
    MountDirMissing,
    /// The target path exists but is not a directory; no process was started.
    MountDirNotADirectory,
    /// The mount process could not be launched at all.
    LaunchFailed,
    /// The mount process was ended by a signal without an exit code.
    KilledBySignal,
    /// The mount process exited with this unexpected code.
    UnexpectedExit(i32),
}

impl MountError {
    /// A short description for the operator's log line.
    pub fn describe(&self) -> (r: &str)
        ensures
            r@ == self.describe_spec(),
    {
        match self {
            MountError::MountDirMissing => "the mountpoint directory does not exist",
            MountError::MountDirNotADirectory => "the mountpoint exists but is not a directory",
            MountError::LaunchFailed => "the mount command could not be started",
            MountError::KilledBySignal => "the mount command was killed by a signal",
            MountError::UnexpectedExit(_) => "the mount command exited with an unexpected status",
        }
    }

    pub open spec fn describe_spec(self) -> Seq<char> {
        match self {
            MountError::MountDirMissing => "the mountpoint directory does not exist"@,
            MountError::MountDirNotADirectory => "the mountpoint exists but is not a directory"@,
            MountError::LaunchFailed => "the mount command could not be started"@,
            MountError::KilledBySignal => "the mount command was killed by a signal"@,
            MountError::UnexpectedExit(_) => "the mount command exited with an unexpected status"@,
        }
    }

    /// The full message for the operator's log line: the description, and
    /// for an unexpected exit also the code the process ended with.
    pub open spec fn message_spec(self) -> Seq<char> {
        match self {
            MountError::UnexpectedExit(c) => "the mount command exited with unexpected status "@
                + signed_digits(c as int),
            _ => self.describe_spec(),
        }
    }

    /// Renders the error for a log line, with the exit code spelled out.
    pub fn message(&self) -> (r: String)
        ensures
            r@ == self.message_spec(),
    {
        match self {
            MountError::UnexpectedExit(c) => {
                let mut out = "the mount command exited with unexpected status ".to_owned();
                if *c < 0 {
                    let magnitude: u32 = (-(*c as i64)) as u32;
                    out.append("-");
                    let digits = u32_to_dec(magnitude);
                    out.append(digits.as_str());
                    proof {
                        assert(out@ =~= "the mount command exited with unexpected status "@
                            + signed_digits(*c as int));
                    }
                } else {
                    let digits = u32_to_dec(*c as u32);
                    out.append(digits.as_str());
                }
                out
            },
            _ => self.describe().to_owned(),
        }
    }
}

/// The decimal spelling of a possibly negative number.
pub open spec fn signed_digits(c: int) -> Seq<char> {
    if c < 0 {
        "-"@ + dec_digits((-c) as nat)
    } else {
        dec_digits(c as nat)
    }
}

/// What the surrounding program observed of the mount target path.
#[derive(Debug, Clone, Copy, PartialEq, Eq, Structural)]
pub enum DirProbe {
    /// Nothing exists at the path.
    Missing,
    /// Something exists at the path, but it is not a directory.
    NotADirectory,
    /// The path is an existing directory.
    IsDirectory,
}

/// The precondition on a mount point: its target must be an existing
/// directory, or the supervisor fails it without starting any process.
pub fn check_mountpoint_dir(probe: DirProbe) -> (r: Result<(), MountError>)
    ensures
        r is Ok <==> probe is IsDirectory,
        probe is Missing ==> r == Result::<(), MountError>::Err(MountError::MountDirMissing),
        probe is NotADirectory ==> r == Result::<(), MountError>::Err(
            MountError::MountDirNotADirectory,
        ),
{
    match probe {
        DirProbe::IsDirectory => Ok(()),
        DirProbe::Missing => Err(MountError::MountDirMissing),
        DirProbe::NotADirectory => Err(MountError::MountDirNotADirectory),
    }
}

/// What the operating system reported of a finished mount process.
#[derive(Debug, Clone, Copy, PartialEq, Eq, Structural)]
pub enum ProcessExit {
    /// The process exited with this code.
    Code(i32),
    /// The process was ended by a signal and carried no exit code.
    SignalOnly,
    /// The process could not be launched at all.
    LaunchError,
}

/// An exit code counts as expected when it is zero, or when it lies in the
/// band conventionally used for "terminated by a signal": the shutdown path
/// ends a mount by unmounting its target, which makes the mount process
/// exit through that band rather than with zero. The band is a heuristic —
/// a genuine crash in it is masked — but it is kept exactly as stated.
pub open spec fn exit_code_expected(code: i32) -> bool {
    code == 0 || (128 <= code && code <= 143)
}

/// Whether an exit code is an expected way for a mount process to end.
pub fn exit_is_expected(code: i32) -> (r: bool)
    ensures
        r == exit_code_expected(code),
{
    code == 0 || (128 <= code && code <= 143)
}

/// How a finished mount attempt classifies: success exactly on an expected
/// exit code; a launch failure, a bare signal death, or any other code is a
/// mount failure carrying the matching error.
pub open spec fn classify_exit_spec(exit: ProcessExit) -> Result<(), MountError> {
    match exit {
        ProcessExit::Code(c) => if exit_code_expected(c) {
            Ok(())
        } else {
            Err(MountError::UnexpectedExit(c))
        },
        ProcessExit::SignalOnly => Err(MountError::KilledBySignal),
        ProcessExit::LaunchError => Err(MountError::LaunchFailed),
    }
}

/// Classifies the outcome of a mount process.
pub fn classify_mount_exit(exit: ProcessExit) -> (r: Result<(), MountError>)
    ensures
        r == classify_exit_spec(exit),
        r is Ok <==> (exit matches ProcessExit::Code(c) && exit_code_expected(c)),
{
    match exit {
        ProcessExit::Code(c) => {
            if exit_is_expected(c) {
                Ok(())
            } else {
                Err(MountError::UnexpectedExit(c))
            }
        },
        ProcessExit::SignalOnly => Err(MountError::KilledBySignal),
        ProcessExit::LaunchError => Err(MountError::LaunchFailed),
    }
}

} // verus!
