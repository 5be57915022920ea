//! The configuration of a run: where the process started, and the script to
//! run after a successful run, if one was asked for.

use crate::command::{bash_command, ShellCommand};
use crate::paths::{invocation_of, parent, path_file_name, path_parent, script_invocation};
use crate::probe::{Executable, FileStatus, FileStatusView};
use std::time::Instant;
use vstd::prelude::*;

verus! {

/// A moment of the monotonic clock.
#[verifier::external_type_specification]
#[verifier::external_body]
pub struct ExInstant(Instant);

/// Calls `std::time::Instant::now`. Nothing is claimed of the moment that
/// comes back.
#[verifier::external_body]
fn now() -> Instant {
    Instant::now()
}

/// Why a run cannot start.
#[derive(Clone, Copy, Debug, PartialEq, Eq)]
pub enum StartupError {
    /// The directory that the process started in is not known.
    NoCurrentDir,
    /// Nothing is at the path of the follow-up script.
    ThenMissing,
    /// The follow-up script may not be executed.
    ThenNotExecutable,
    /// Whether the follow-up script may be executed could not be found out.
    ThenPermissionsUnknown,
    /// The path of the follow-up script could not be resolved.
    ThenUnresolvable,
}

/// The configuration of a run.
#[derive(Debug)]
pub struct Payload {
    initial_dir: Option<String>,
    raw_then_path: Option<String>,
    start_instant: Option<Instant>,
}

/// The mathematical value of a [`Payload`]. Of the time mark it keeps only
/// whether one was taken.
pub struct PayloadView {
    pub initial_dir: Option<Seq<char>>,
    pub raw_then_path: Option<Seq<char>>,
    pub marked: bool,
}

impl DeepView for Payload {
    type V = PayloadView;

    closed spec fn deep_view(&self) -> PayloadView {
        PayloadView {
            initial_dir: self.initial_dir.deep_view(),
            raw_then_path: self.raw_then_path.deep_view(),
            marked: self.start_instant is Some,
        }
    }
}

/// The check made before a run: the starting directory must be known, and
/// a follow-up script that was asked for must exist, be executable and
/// resolve. The first fault found is the one reported; a run that may start
/// goes on with the resolved path of its follow-up script.
pub open spec fn startup_check(
    initial_dir: Option<Seq<char>>,
    raw_then_path: Option<Seq<char>>,
    then_file: FileStatusView,
) -> Result<Option<Seq<char>>, StartupError> {
    if initial_dir is None {
        Err(StartupError::NoCurrentDir)
    } else if raw_then_path is None {
        Ok(None)
    } else if !then_file.exists {
        Err(StartupError::ThenMissing)
    } else if then_file.executable == Executable::No {
        Err(StartupError::ThenNotExecutable)
    } else if then_file.executable == Executable::Unknown {
        Err(StartupError::ThenPermissionsUnknown)
    } else if then_file.canonical is None {
        Err(StartupError::ThenUnresolvable)
    } else {
        Ok(then_file.canonical)
    }
}

/// The directories to enter, in order, before a script in `dir` is run: the
/// starting directory first, so that a relative `dir` is taken from there.
pub open spec fn cd_plan(initial_dir: Seq<char>, dir: Option<Seq<char>>) -> Seq<Seq<char>> {
    match dir {
        Some(dir) => seq![initial_dir, dir],
        None => seq![initial_dir],
    }
}

/// The line that runs the follow-up script, where one is configured.
pub open spec fn then_line(raw_then_path: Option<Seq<char>>) -> Option<Seq<char>> {
    match raw_then_path {
        Some(path) => Some(invocation_of(path_file_name(path).unwrap())),
        None => None,
    }
}

/// The text of the report that a fault is announced with.
pub open spec fn startup_message(error: StartupError, then_path: Seq<char>) -> Option<Seq<char>> {
    match error {
        StartupError::NoCurrentDir => Some("ERROR: could not get current directory. Can not continue."@),
        StartupError::ThenMissing => Some("ERROR: "@ + then_path + " does not exist"@),
        StartupError::ThenNotExecutable => Some("ERROR: "@ + then_path + " is not executable"@),
        StartupError::ThenPermissionsUnknown => Some("ERROR: Could not determine permissions for "@ + then_path + " "@),
        StartupError::ThenUnresolvable => None,
    }
}

impl StartupError {
    /// The line to print for this fault, `then_path` being the path that
    /// was asked for. A path that could not be resolved has no line of its
    /// own: the resolver's error says why.
    pub fn message(&self, then_path: &str) -> (line: Option<String>)
        ensures
            line.deep_view() == startup_message(*self, then_path@),
    {
        match self {
            StartupError::NoCurrentDir => Some(
                String::from_str("ERROR: could not get current directory. Can not continue."),
            ),
            StartupError::ThenMissing => Some(
                String::from_str("ERROR: ").concat(then_path).concat(" does not exist"),
            ),
            StartupError::ThenNotExecutable => Some(
                String::from_str("ERROR: ").concat(then_path).concat(" is not executable"),
            ),
            StartupError::ThenPermissionsUnknown => Some(
                String::from_str("ERROR: Could not determine permissions for ").concat(then_path).concat(" "),
            ),
            StartupError::ThenUnresolvable => None,
        }
    }
}

impl Payload {
    /// The configuration for the arguments of a run, where the run may
    /// start: `raw_then_path` is the follow-up script as it was asked for,
    /// `initial_dir` the directory that the process started in, and
    /// `then_file` what the file system says of the script (not read where
    /// none was asked for).
    pub fn new(raw_then_path: Option<String>, initial_dir: Option<String>, then_file: &FileStatus) -> (made: Result<
        Payload,
        StartupError,
    >)
        ensures
            match startup_check(initial_dir.deep_view(), raw_then_path.deep_view(), then_file.deep_view()) {
                Ok(resolved) => made matches Ok(payload) && payload.deep_view() == (PayloadView {
                    initial_dir: initial_dir.deep_view(),
                    raw_then_path: resolved,
                    marked: false,
                }),
                Err(error) => made == Err::<Payload, StartupError>(error),
            },
    {
        let mut payload = Payload { initial_dir, raw_then_path, start_instant: None };
        match payload.validate_paths(then_file) {
            Ok(()) => Ok(payload),
            Err(error) => Err(error),
        }
    }

    /// Checks the configuration against what the file system says of the
    /// follow-up script, and replaces the script's path by its resolved form.
    /// A configuration that fails the check is left as it was.
    pub fn validate_paths(&mut self, then_file: &FileStatus) -> (checked: Result<(), StartupError>)
        ensures
            match startup_check(
                old(self).deep_view().initial_dir,
                old(self).deep_view().raw_then_path,
                then_file.deep_view(),
            ) {
                Ok(resolved) => checked is Ok && final(self).deep_view() == (PayloadView {
                    raw_then_path: resolved,
                    ..old(self).deep_view()
                }),
                Err(error) => checked == Err::<(), StartupError>(error) && final(self).deep_view() == old(
                    self,
                ).deep_view(),
            },
    {
        if self.initial_dir.is_none() {
            return Err(StartupError::NoCurrentDir);
        }
        if self.raw_then_path.is_some() {
            if !then_file.exists {
                return Err(StartupError::ThenMissing);
            }
            match then_file.executable {
                Executable::Yes => {},
                Executable::No => {
                    return Err(StartupError::ThenNotExecutable);
                },
                Executable::Unknown => {
                    return Err(StartupError::ThenPermissionsUnknown);
                },
            }
            match &then_file.canonical {
                Some(resolved) => {
                    self.raw_then_path = Some(resolved.clone());
                },
                None => {
                    return Err(StartupError::ThenUnresolvable);
                },
            }
        }
        Ok(())
    }

    /// Takes the time mark. The paths stay as they are.
    pub fn mark_time(&mut self)
        ensures
            final(self).deep_view() == (PayloadView { marked: true, ..old(self).deep_view() }),
    {
        self.start_instant = Some(now());
    }

    /// The directory that the process started in.
    pub fn initial_dir(&self) -> (dir: Option<&String>)
        ensures
            dir.deep_view() == self.deep_view().initial_dir,
    {
        self.initial_dir.as_ref()
    }

    /// The path of the follow-up script.
    pub fn raw_then_path(&self) -> (path: Option<&String>)
        ensures
            path.deep_view() == self.deep_view().raw_then_path,
    {
        self.raw_then_path.as_ref()
    }

    /// The directories to enter, in order, before the follow-up script is
    /// run: the starting directory, then the script's own, where its path
    /// has one.
    pub fn then_cd(&self) -> (dirs: Vec<String>)
        requires
            self.deep_view().initial_dir is Some,
            self.deep_view().raw_then_path is Some,
        ensures
            dirs.deep_view() == cd_plan(
                self.deep_view().initial_dir.unwrap(),
                path_parent(self.deep_view().raw_then_path.unwrap()),
            ),
    {
        let mut dirs: Vec<String> = Vec::new();
        match &self.initial_dir {
            Some(dir) => {
                dirs.push(dir.clone());
            },
            None => {},
        }
        match &self.raw_then_path {
            Some(path) => {
                match parent(path.as_str()) {
                    Some(dir) => {
                        dirs.push(dir);
                    },
                    None => {},
                }
            },
            None => {},
        }
        assert(dirs.deep_view() =~= cd_plan(
            self.deep_view().initial_dir.unwrap(),
            path_parent(self.deep_view().raw_then_path.unwrap()),
        ));
        dirs
    }

    /// The line that runs the follow-up script from its own directory,
    /// where one is configured.
    pub fn then_command(&self) -> (line: Option<String>)
        requires
            self.deep_view().raw_then_path matches Some(path) ==> path_file_name(path) is Some,
        ensures
            line.deep_view() == then_line(self.deep_view().raw_then_path),
    {
        match &self.raw_then_path {
            Some(path) => script_invocation(path.as_str()),
            None => None,
        }
    }

    /// The command of the follow-up job, where a follow-up script is
    /// configured.
    pub fn then_job(&self) -> (command: Option<ShellCommand>)
        requires
            self.deep_view().raw_then_path matches Some(path) ==> path_file_name(path) is Some,
        ensures
            command.deep_view() == match then_line(self.deep_view().raw_then_path) {
                Some(line) => Some(bash_command(line)),
                None => None,
            },
    {
        match self.then_command() {
            Some(line) => Some(ShellCommand::bash(line)),
            None => None,
        }
    }

    /// The path that is watched: the directory that the process runs in.
    pub fn watch_path(&self) -> (path: String)
        ensures
            path@ == seq!['.'],
    {
        proof {
            reveal_strlit(".");
        }
        let path = String::from_str(".");
        path
    }
}

} // verus!
