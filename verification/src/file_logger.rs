//! The launcher's own log: which records it keeps, how a record is
//! written, and how the log is set up. Opening the file and installing the
//! logger are left to the caller, who hands both in as functions.

use vstd::prelude::*;
use crate::launch_options::LaunchOptions;
use crate::text::concat;

verus! {

/// The name that stands for the standard output where a log file is asked
/// for.
pub const STDOUT_NAME: &'static str = "__stdout__";

/// How much a record matters, from the most to the least.
#[derive(Debug, Clone, Copy, PartialEq, Eq, Structural)]
pub enum Level {
    Error,
    Warn,
    Info,
    Debug,
    Trace,
}

/// Why the log could not be set up.
#[derive(Debug)]
pub struct FileLoggerError {
    pub reason: String,
}

/// The word that a record of the given level starts with.
pub open spec fn level_name(level: Level) -> Seq<char> {
    match level {
        Level::Error => "ERROR"@,
        Level::Warn => "WARN"@,
        Level::Info => "INFO"@,
        Level::Debug => "DEBUG"@,
        Level::Trace => "TRACE"@,
    }
}

/// Whether records of the given level are kept: those that matter at least
/// as much as plain information.
pub open spec fn is_enabled(level: Level) -> bool {
    level is Error || level is Warn || level is Info
}

/// The line that is written for a record.
pub open spec fn record_line(level: Level, message: Seq<char>) -> Seq<char> {
    level_name(level) + ": "@ + message + "\n"@
}

/// Where the log goes for the name given on the command line: `None`, the
/// standard output, for the name that stands for it, else the file of that
/// name.
pub open spec fn target_of(name: Seq<char>) -> Option<Seq<char>> {
    if name == STDOUT_NAME@ {
        None
    } else {
        Some(name)
    }
}

/// Whether `create` may be asked to open any file and `install` to install
/// a logger on any target.
pub open spec fn callable<C: Fn(&String) -> Option<String>, S: Fn(&Option<String>) -> bool>(
    create: C,
    install: S,
) -> bool {
    &&& forall|p: &String| #[trigger] create.requires((p,))
    &&& forall|t: &Option<String>| #[trigger] install.requires((t,))
}

/// What setting up the log on `path` may end with, told by the answers of
/// the two functions: success after the file, if one was asked for, was
/// opened and the logger installed; the reason that `create` gave for its
/// failure; or the refusal of `install` after the file was opened.
pub open spec fn init_outcome<C: Fn(&String) -> Option<String>, S: Fn(&Option<String>) -> bool>(
    path: Option<String>,
    create: C,
    install: S,
    r: Result<(), FileLoggerError>,
) -> bool {
    let opened = path is Some ==> create.ensures((&path->0,), None);
    match r {
        Ok(_) => opened && install.ensures((&path,), true),
        Err(e) => {
            ||| path is Some && exists|reason: String|
                #[trigger] create.ensures((&path->0,), Some(reason)) && e.reason@ == reason@
            ||| opened && install.ensures((&path,), false) && e.reason@ == "could not set logger"@
        },
    }
}

/// Whether records of the given level are kept.
pub fn enabled(level: Level) -> (r: bool)
    ensures
        r == is_enabled(level),
{
    match level {
        Level::Error | Level::Warn | Level::Info => true,
        Level::Debug | Level::Trace => false,
    }
}

/// The line that is written for a record of the given level.
pub fn format_record(level: Level, message: &str) -> (r: String)
    ensures
        r@ == record_line(level, message@),
{
    let name = match level {
        Level::Error => "ERROR",
        Level::Warn => "WARN",
        Level::Info => "INFO",
        Level::Debug => "DEBUG",
        Level::Trace => "TRACE",
    };
    let mut line = concat(name, ": ");
    line.append(message);
    line.append("\n");
    line
}

/// Where the log goes for the name given on the command line.
pub fn log_target(name: &str) -> (r: Option<String>)
    ensures
        crate::text::opt_text(r) == target_of(name@),
{
    if crate::text::same_text(name, STDOUT_NAME) {
        None
    } else {
        Some(name.to_owned())
    }
}

/// Sets the log up on the file `path`, or on the standard output where
/// there is none.
///
/// `create` opens the file afresh and answers with the reason where it
/// cannot, with `None` where it can. `install` makes the logger on the given target the one of the
/// process and answers whether it could. A file is opened before anything
/// is installed, and nothing is installed once opening failed.
pub fn init<C: Fn(&String) -> Option<String>, S: Fn(&Option<String>) -> bool>(
    path: Option<String>,
    create: C,
    install: S,
) -> (r: Result<(), FileLoggerError>)
    requires
        callable(create, install),
    ensures
        init_outcome(path, create, install, r),
{
    FileLogger::init(path, create, install)
}

/// The launcher's logger.
pub struct FileLogger {
    /// The file that the records go to; `None` for the standard output.
    pub file: Option<String>,
}

impl FileLogger {
    /// Sets the log up on the file `opt`, or on the standard output where
    /// there is none.
    pub fn init<C: Fn(&String) -> Option<String>, S: Fn(&Option<String>) -> bool>(
        opt: Option<String>,
        create: C,
        install: S,
    ) -> (r: Result<(), FileLoggerError>)
        requires
            callable(create, install),
        ensures
            init_outcome(opt, create, install, r),
    {
        if let Some(path) = &opt {
            if let Some(reason) = create(path) {
                return Err(FileLoggerError { reason });
            }
        }
        if !install(&opt) {
            return Err(FileLoggerError { reason: "could not set logger".to_owned() });
        }
        Ok(())
    }

    /// Whether this logger keeps records of the given level.
    pub fn enabled(&self, level: Level) -> (r: bool)
        ensures
            r == is_enabled(level),
    {
        enabled(level)
    }

    /// The line that this logger writes for a record, or `None` for a
    /// record that it does not keep.
    pub fn log(&self, level: Level, message: &str) -> (r: Option<String>)
        ensures
            crate::text::opt_text(r) == if is_enabled(level) {
                Some(record_line(level, message@))
            } else {
                None
            },
    {
        if self.enabled(level) {
            Some(format_record(level, message))
        } else {
            None
        }
    }
}

impl LaunchOptions {
    /// Sets the launcher's log up where the command line asked for one,
    /// on the file of the given name or, for the name that stands for it,
    /// on the standard output.
    pub fn setup_logging<C: Fn(&String) -> Option<String>, S: Fn(&Option<String>) -> bool>(
        &self,
        create: C,
        install: S,
    ) -> (r: Result<(), FileLoggerError>)
        requires
            callable(create, install),
        ensures
            self.launcher_logfile is None ==> r is Ok,
            self.launcher_logfile is Some ==> exists|target: Option<String>|
                crate::text::opt_text(target) == target_of(self.launcher_logfile->0@)
                    && #[trigger] init_outcome(target, create, install, r),
    {
        match &self.launcher_logfile {
            None => Ok(()),
            Some(name) => {
                let target = log_target(name.as_str());
                let ghost asked = target;
                let r = init(target, create, install);
                assert(init_outcome(asked, create, install, r));
                r
            },
        }
    }
}

} // verus!
