//! The options that the launcher gathers for one launch, and the errors
//! that end a launch before the runtime is started.

use vstd::prelude::*;
use crate::arguments::parsed;
use crate::assembly::{assembled, assembled_on, ends_as, home_seen, Assembly, HomeFactsView};
use crate::disk::{agrees, askable, probes, surveys, Disk, Listing};
use crate::file_helper::decides;
use crate::environment::{home_outcome, located_home, Environment};
use crate::paths::Platform;
use crate::runtime::{runtime_on, runtime_outcome, with_runtime};
use crate::text::{lemma_texts_empty, opt_text, texts};

verus! {

/// The class that is started when no other boot class is asked for.
pub const MAIN_CLASS: &'static str = "org/jruby/Main";

/// The class that starts a Nailgun server.
pub const NAILGUN_SERVER_CLASS: &'static str = "com/martiansoftware/nailgun/NGServer";

/// The thread stack size that is used when none is asked for.
pub const XSS_DEFAULT: &'static str = "2048k";

/// The runtime flag for the default thread stack size.
pub const XSS_DEFAULT_OPT: &'static str = "-Xss2048k";

/// The file name of the Java command.
pub open spec fn java_name_of(platform: Platform) -> Seq<char> {
    match platform {
        Platform::Posix => "java"@,
        Platform::Windows => "java.exe"@,
    }
}

/// The directory under the Java home that holds the runtime's own
/// shared-class archives.
pub open spec fn jsa_dir_of(platform: Platform) -> Seq<char> {
    match platform {
        Platform::Posix => "lib"@,
        Platform::Windows => "bin"@,
    }
}

/// The flag that names the shell to the runtime.
pub open spec fn shell_of(platform: Platform) -> Seq<char> {
    match platform {
        Platform::Posix => "-Djruby.shell=/bin/sh"@,
        Platform::Windows => "-Djruby.shell=cmd.exe"@,
    }
}

/// The file name of the Java command.
pub fn java_name(platform: Platform) -> (r: &'static str)
    ensures
        r@ == java_name_of(platform),
{
    match platform {
        Platform::Posix => "java",
        Platform::Windows => "java.exe",
    }
}

/// The directory under the Java home that holds the runtime's own
/// shared-class archives.
pub fn jsa_dir(platform: Platform) -> (r: &'static str)
    ensures
        r@ == jsa_dir_of(platform),
{
    match platform {
        Platform::Posix => "lib",
        Platform::Windows => "bin",
    }
}

/// The flag that names the shell to the runtime.
pub fn shell(platform: Platform) -> (r: &'static str)
    ensures
        r@ == shell_of(platform),
{
    match platform {
        Platform::Posix => "-Djruby.shell=/bin/sh",
        Platform::Windows => "-Djruby.shell=cmd.exe",
    }
}

/// Why a launch was given up.
#[derive(Debug, Clone, Copy, PartialEq, Eq, Structural)]
pub enum LaunchErrorKind {
    /// A directive that takes a value was the last token.
    MissingArgumentValue,
    /// No way of finding the installation led to a path that exists.
    HomeNotFound,
    /// The installation holds no directory of native libraries.
    JniDirNotFound,
    /// The version of the Java runtime could not be read.
    RuntimeVersionUnresolvable,
    /// A directory that is there could not be read.
    DirectoryUnreadable,
    /// An entry of a class path holds the list separator.
    ClassPathNotJoinable,
}

/// Something amiss in the installation that does not end the launch.
#[derive(Debug, Clone, Copy, PartialEq, Eq, Structural)]
pub enum Warning {
    /// Both runtime archives are there; the plain one is used.
    ArchiveConflict,
    /// No runtime archive is there.
    ArchiveMissing,
    /// The runtime archive is on its class path already and is not added
    /// again.
    ArchiveAlreadyPlaced,
    /// The directory of libraries is no directory; no archive of it is put
    /// on the class path.
    LibraryMissing,
}

/// The words that go with each warning.
pub open spec fn warning_text(warning: Warning) -> Seq<char> {
    match warning {
        Warning::ArchiveConflict => "Both jruby.jar and jruby-complete.jar are present.  Using jruby.jar"@,
        Warning::ArchiveMissing => "No jruby.jar or jruby-complete.jar found."@,
        Warning::ArchiveAlreadyPlaced => "The runtime archive already is within the class path.  Skipping it."@,
        Warning::LibraryMissing => "The lib directory is not a directory...skipping!"@,
    }
}

impl Warning {
    /// The words that say what is amiss.
    pub fn message(&self) -> (r: &'static str)
        ensures
            r@ == warning_text(*self),
    {
        match self {
            Warning::ArchiveConflict => "Both jruby.jar and jruby-complete.jar are present.  Using jruby.jar",
            Warning::ArchiveMissing => "No jruby.jar or jruby-complete.jar found.",
            Warning::ArchiveAlreadyPlaced => "The runtime archive already is within the class path.  Skipping it.",
            Warning::LibraryMissing => "The lib directory is not a directory...skipping!",
        }
    }
}

/// An error that ends a launch.
#[derive(Debug, Clone, Copy)]
pub struct LaunchError {
    pub kind: LaunchErrorKind,
}

/// The words that go with each kind of error.
pub open spec fn message_of(kind: LaunchErrorKind) -> Seq<char> {
    match kind {
        LaunchErrorKind::MissingArgumentValue => "no extra argument"@,
        LaunchErrorKind::HomeNotFound => "unable to find JRuby home"@,
        LaunchErrorKind::JniDirNotFound => "unable to find the JNI library directory"@,
        LaunchErrorKind::RuntimeVersionUnresolvable => "unable to determine the Java version"@,
        LaunchErrorKind::DirectoryUnreadable => "unable to read a directory"@,
        LaunchErrorKind::ClassPathNotJoinable => "path segment contains separator"@,
    }
}

impl LaunchError {
    /// An error of the given kind.
    pub fn new(kind: LaunchErrorKind) -> (r: LaunchError)
        ensures
            r.kind == kind,
    {
        LaunchError { kind }
    }

    /// The words that say what went wrong.
    pub fn message(&self) -> (r: &'static str)
        ensures
            r@ == message_of(self.kind),
    {
        match self.kind {
            LaunchErrorKind::MissingArgumentValue => "no extra argument",
            LaunchErrorKind::HomeNotFound => "unable to find JRuby home",
            LaunchErrorKind::JniDirNotFound => "unable to find the JNI library directory",
            LaunchErrorKind::RuntimeVersionUnresolvable => "unable to determine the Java version",
            LaunchErrorKind::DirectoryUnreadable => "unable to read a directory",
            LaunchErrorKind::ClassPathNotJoinable => "path segment contains separator",
        }
    }

    /// The line that reports the error to the user.
    pub fn describe(&self) -> (r: String)
        ensures
            r@ == "Launch Options Error: "@ + message_of(self.kind),
    {
        crate::text::concat("Launch Options Error: ", self.message())
    }
}

/// What was asked and settled about the shared-class archive.
#[derive(Debug)]
pub struct CacheOptions {
    /// Whether the shared-class archive is to be written anew.
    pub regenerate_jsa_file: bool,
    /// Whether a shared-class archive file is handed to the runtime.
    pub use_jsa_file: bool,
    /// Whether stale shared-class archives are to be removed.
    pub remove_jsa_files: bool,
    /// Whether the runtime logs its use of the shared-class archive.
    pub log_cds: bool,
    /// Whether shared-class archive files were asked not to be used.
    pub disable_jsa_file: bool,
    /// The shared-class archive file for this launch.
    pub jruby_jsa_file: Option<String>,
}

/// What a `CacheOptions` holds, as plain mathematical values.
pub struct CacheOptionsView {
    pub regenerate_jsa_file: bool,
    pub use_jsa_file: bool,
    pub remove_jsa_files: bool,
    pub log_cds: bool,
    pub disable_jsa_file: bool,
    pub jruby_jsa_file: Option<Seq<char>>,
}

impl View for CacheOptions {
    type V = CacheOptionsView;

    open spec fn view(&self) -> CacheOptionsView {
        CacheOptionsView {
            regenerate_jsa_file: self.regenerate_jsa_file,
            use_jsa_file: self.use_jsa_file,
            remove_jsa_files: self.remove_jsa_files,
            log_cds: self.log_cds,
            disable_jsa_file: self.disable_jsa_file,
            jruby_jsa_file: opt_text(self.jruby_jsa_file),
        }
    }
}

/// Nothing asked about the shared-class archive.
pub open spec fn empty_cache() -> CacheOptionsView {
    CacheOptionsView {
        regenerate_jsa_file: false,
        use_jsa_file: false,
        remove_jsa_files: false,
        log_cds: false,
        disable_jsa_file: false,
        jruby_jsa_file: None,
    }
}

impl Default for CacheOptions {
    fn default() -> (r: CacheOptions)
        ensures
            r@ == empty_cache(),
    {
        CacheOptions {
            regenerate_jsa_file: false,
            use_jsa_file: false,
            remove_jsa_files: false,
            log_cds: false,
            disable_jsa_file: false,
            jruby_jsa_file: None,
        }
    }
}

/// What is known of the Java runtime once it was found and probed.
#[derive(Debug)]
pub struct RuntimeInfo {
    /// The Java command.
    pub java_location: Option<String>,
    /// The home of the Java runtime.
    pub java_home: Option<String>,
    /// Whether the runtime has the module system.
    pub java_is_modular: bool,
    /// The version of the runtime as its release file gives it.
    pub java_version: String,
    /// The first number of the version.
    pub java_major_version: u16,
    /// Whether the runtime ships shared-class archives.
    pub java_has_appcds: bool,
    /// Whether shared-class archives are used for this launch.
    pub use_appcds: bool,
    /// Whether the runtime creates its shared-class archive by itself.
    pub appcds_autogenerate: bool,
    /// Whether native access has to be enabled by flag.
    pub native_access: bool,
    /// Whether unsafe memory access has to be allowed by flag.
    pub unsafe_memory: bool,
}

/// What a `RuntimeInfo` holds, as plain mathematical values.
pub struct RuntimeInfoView {
    pub java_location: Option<Seq<char>>,
    pub java_home: Option<Seq<char>>,
    pub java_is_modular: bool,
    pub java_version: Seq<char>,
    pub java_major_version: u16,
    pub java_has_appcds: bool,
    pub use_appcds: bool,
    pub appcds_autogenerate: bool,
    pub native_access: bool,
    pub unsafe_memory: bool,
}

impl View for RuntimeInfo {
    type V = RuntimeInfoView;

    open spec fn view(&self) -> RuntimeInfoView {
        RuntimeInfoView {
            java_location: opt_text(self.java_location),
            java_home: opt_text(self.java_home),
            java_is_modular: self.java_is_modular,
            java_version: self.java_version@,
            java_major_version: self.java_major_version,
            java_has_appcds: self.java_has_appcds,
            use_appcds: self.use_appcds,
            appcds_autogenerate: self.appcds_autogenerate,
            native_access: self.native_access,
            unsafe_memory: self.unsafe_memory,
        }
    }
}

/// Nothing known of the Java runtime.
pub open spec fn unknown_runtime() -> RuntimeInfoView {
    RuntimeInfoView {
        java_location: None,
        java_home: None,
        java_is_modular: false,
        java_version: Seq::empty(),
        java_major_version: 0,
        java_has_appcds: false,
        use_appcds: false,
        appcds_autogenerate: false,
        native_access: false,
        unsafe_memory: false,
    }
}

impl Default for RuntimeInfo {
    fn default() -> (r: RuntimeInfo)
        ensures
            r@ == unknown_runtime(),
    {
        RuntimeInfo {
            java_location: None,
            java_home: None,
            java_is_modular: false,
            java_version: String::new(),
            java_major_version: 0,
            java_has_appcds: false,
            use_appcds: false,
            appcds_autogenerate: false,
            native_access: false,
            unsafe_memory: false,
        }
    }
}

/// The options of one launch: filled from the command line and the
/// environment, then completed with what is found out about the installation
/// and the Java runtime, and last with the final flag list.
#[derive(Debug)]
pub struct LaunchOptions {
    /// Whether the runtime is started as a child process of its own.
    pub fork_java: bool,
    /// Whether the command is only printed, not run.
    pub command_only: bool,
    /// Whether the runtime archive goes on the class path instead of the boot
    /// class path.
    pub no_boot_classpath: bool,
    /// Whether the launch goes to a Nailgun server through its client.
    pub nailgun_client: bool,
    /// Where the launcher writes its own log.
    pub launcher_logfile: Option<String>,
    /// The class to start, with `/` between its parts.
    pub boot_class: Option<String>,
    /// The JDK that was asked for on the command line.
    pub jdk_home: Option<String>,
    /// The stack size flag given on the command line.
    pub xss: Option<String>,
    /// The installation home, once found.
    pub jruby_home: Option<String>,
    /// Class path entries asked to come first.
    pub classpath_before: Vec<String>,
    /// Class path entries asked to come last.
    pub classpath_after: Vec<String>,
    /// Class path entries handed to the runtime directly on the command line.
    pub classpath_explicit: Vec<String>,
    /// The class path as it was put together.
    pub classpath: Vec<String>,
    /// The boot class path as it was put together.
    pub boot_classpath: Vec<String>,
    /// Runtime flags gathered from the command line.
    pub java_args: Vec<String>,
    /// The arguments that are handed on to the program.
    pub program_args: Vec<String>,
    /// Runtime flags from the environment and, after assembly, the final
    /// flag list.
    pub java_opts: Vec<String>,
    /// Launcher flags from the environment.
    pub jruby_opts: Vec<String>,
    /// What was found amiss, without being an error, while the final flag
    /// list was put together.
    pub warnings: Vec<Warning>,
    /// The shared-class archive.
    pub cache: CacheOptions,
    /// The Java runtime.
    pub runtime: RuntimeInfo,
}

/// What a `LaunchOptions` holds, as plain mathematical values.
pub struct LaunchOptionsView {
    pub fork_java: bool,
    pub command_only: bool,
    pub no_boot_classpath: bool,
    pub nailgun_client: bool,
    pub launcher_logfile: Option<Seq<char>>,
    pub boot_class: Option<Seq<char>>,
    pub jdk_home: Option<Seq<char>>,
    pub xss: Option<Seq<char>>,
    pub jruby_home: Option<Seq<char>>,
    pub classpath_before: Seq<Seq<char>>,
    pub classpath_after: Seq<Seq<char>>,
    pub classpath_explicit: Seq<Seq<char>>,
    pub classpath: Seq<Seq<char>>,
    pub boot_classpath: Seq<Seq<char>>,
    pub java_args: Seq<Seq<char>>,
    pub program_args: Seq<Seq<char>>,
    pub java_opts: Seq<Seq<char>>,
    pub jruby_opts: Seq<Seq<char>>,
    pub warnings: Seq<Warning>,
    pub cache: CacheOptionsView,
    pub runtime: RuntimeInfoView,
}

impl View for LaunchOptions {
    type V = LaunchOptionsView;

    open spec fn view(&self) -> LaunchOptionsView {
        LaunchOptionsView {
            fork_java: self.fork_java,
            command_only: self.command_only,
            no_boot_classpath: self.no_boot_classpath,
            nailgun_client: self.nailgun_client,
            launcher_logfile: opt_text(self.launcher_logfile),
            boot_class: opt_text(self.boot_class),
            jdk_home: opt_text(self.jdk_home),
            xss: opt_text(self.xss),
            jruby_home: opt_text(self.jruby_home),
            classpath_before: texts(self.classpath_before@),
            classpath_after: texts(self.classpath_after@),
            classpath_explicit: texts(self.classpath_explicit@),
            classpath: texts(self.classpath@),
            boot_classpath: texts(self.boot_classpath@),
            java_args: texts(self.java_args@),
            program_args: texts(self.program_args@),
            java_opts: texts(self.java_opts@),
            jruby_opts: texts(self.jruby_opts@),
            warnings: self.warnings@,
            cache: self.cache@,
            runtime: self.runtime@,
        }
    }
}

/// The options before anything was read: every flag off, every list empty.
pub open spec fn empty_options() -> LaunchOptionsView {
    LaunchOptionsView {
        fork_java: false,
        command_only: false,
        no_boot_classpath: false,
        nailgun_client: false,
        launcher_logfile: None,
        boot_class: None,
        jdk_home: None,
        xss: None,
        jruby_home: None,
        classpath_before: Seq::empty(),
        classpath_after: Seq::empty(),
        classpath_explicit: Seq::empty(),
        classpath: Seq::empty(),
        boot_classpath: Seq::empty(),
        java_args: Seq::empty(),
        program_args: Seq::empty(),
        java_opts: Seq::empty(),
        jruby_opts: Seq::empty(),
        warnings: Seq::empty(),
        cache: empty_cache(),
        runtime: unknown_runtime(),
    }
}

impl Default for LaunchOptions {
    fn default() -> (r: LaunchOptions)
        ensures
            r@ == empty_options(),
    {
        proof {
            lemma_texts_empty();
        }
        LaunchOptions {
            fork_java: false,
            command_only: false,
            no_boot_classpath: false,
            nailgun_client: false,
            launcher_logfile: None,
            boot_class: None,
            jdk_home: None,
            xss: None,
            jruby_home: None,
            classpath_before: Vec::new(),
            classpath_after: Vec::new(),
            classpath_explicit: Vec::new(),
            classpath: Vec::new(),
            boot_classpath: Vec::new(),
            java_args: Vec::new(),
            program_args: Vec::new(),
            java_opts: Vec::new(),
            jruby_opts: Vec::new(),
            warnings: Vec::new(),
            cache: CacheOptions::default(),
            runtime: RuntimeInfo::default(),
        }
    }
}

/// The options that a launch ends with after the command line was
/// classified into `o`, or the error that ends it.
///
/// The installation home is found, the Java runtime is found and probed,
/// and the final flag list is put together. The first step that fails ends
/// the launch.
pub open spec fn resolved_from(o: LaunchOptionsView, env: Environment, disk: Disk) -> Result<
    LaunchOptionsView,
    LaunchErrorKind,
> {
    match located_home(env, disk.present) {
        None => Err(LaunchErrorKind::HomeNotFound),
        Some(home) => settled_on(LaunchOptionsView { jruby_home: Some(home), ..o }, env, disk),
    }
}

/// The options that a launch ends with once the home is taken up into `o`,
/// or the error that ends it: the runtime is found and probed, and the
/// final flag list is put together.
pub open spec fn settled_on(o: LaunchOptionsView, env: Environment, disk: Disk) -> Result<
    LaunchOptionsView,
    LaunchErrorKind,
> {
    match runtime_on(o, env, disk) {
        Err(kind) => Err(kind),
        Ok(info) => result_of(assembled_on(with_runtime(o, info), env, disk)),
    }
}

/// The options that a launch in the environment `env` on `disk` ends
/// with, or the error that ends it: the command line is classified first,
/// and an error there ends the launch before anything is looked at.
pub open spec fn resolved(env: Environment, disk: Disk) -> Result<
    LaunchOptionsView,
    LaunchErrorKind,
> {
    let scan = parsed(empty_options(), env);
    if scan.error is Some {
        Err(scan.error->0)
    } else {
        resolved_from(scan.options, env, disk)
    }
}

/// What an assembly comes to: its options, or its error.
pub open spec fn result_of(done: Assembly) -> Result<LaunchOptionsView, LaunchErrorKind> {
    match done.error {
        Some(kind) => Err(kind),
        None => Ok(done.options),
    }
}

/// What a resolution comes to, as plain mathematical values.
pub open spec fn outcome_of(r: Result<LaunchOptions, LaunchError>) -> Result<
    LaunchOptionsView,
    LaunchErrorKind,
> {
    match r {
        Ok(options) => Ok(options@),
        Err(e) => Err(e.kind),
    }
}

/// The last step of a resolution, told by the answers alone: `facts` were
/// seen of the home, and `r` is what the assembly of `o` comes to with
/// them.
pub open spec fn assembly_step<
    E: Fn(&String) -> bool,
    L: Fn(&String) -> Listing,
    N: Fn(&String, &String) -> bool,
>(
    exist_test: E,
    list: L,
    newer: N,
    o: LaunchOptionsView,
    env: Environment,
    home: Seq<char>,
    facts: HomeFactsView,
    r: Result<LaunchOptionsView, LaunchErrorKind>,
) -> bool {
    home_seen(exist_test, list, newer, o, env, home, facts) && r == result_of(
        assembled(o, env, facts),
    )
}

/// The middle step of a resolution, told by the answers alone: finding the
/// runtime for `o` ended with `info`; without a runtime `r` is the error of
/// that step, else `r` is what the last step comes to.
pub open spec fn runtime_step<
    E: Fn(&String) -> bool,
    R: Fn(&String) -> Option<String>,
    L: Fn(&String) -> Listing,
    N: Fn(&String, &String) -> bool,
>(
    exist_test: E,
    read: R,
    list: L,
    newer: N,
    o: LaunchOptionsView,
    env: Environment,
    home: Seq<char>,
    info: Result<RuntimeInfoView, LaunchErrorKind>,
    r: Result<LaunchOptionsView, LaunchErrorKind>,
) -> bool {
    runtime_outcome(exist_test, read, list, o, env, info) && match info {
        Err(kind) => r == Err::<LaunchOptionsView, LaunchErrorKind>(kind),
        Ok(runtime) => exists|facts: HomeFactsView| #[trigger]
            assembly_step(exist_test, list, newer, with_runtime(o, runtime), env, home, facts, r),
    }
}

/// The first step of a resolution, told by the answers alone: the search
/// for the home ended with `home`; without a home `r` is the error for it,
/// else the home is taken up and `r` is what the middle step comes to.
pub open spec fn home_step<
    E: Fn(&String) -> bool,
    R: Fn(&String) -> Option<String>,
    L: Fn(&String) -> Listing,
    N: Fn(&String, &String) -> bool,
>(
    exist_test: E,
    read: R,
    list: L,
    newer: N,
    o: LaunchOptionsView,
    env: Environment,
    home: Option<Seq<char>>,
    r: Result<LaunchOptionsView, LaunchErrorKind>,
) -> bool {
    home_outcome(exist_test, env, home) && match home {
        None => r == Err::<LaunchOptionsView, LaunchErrorKind>(LaunchErrorKind::HomeNotFound),
        Some(place) => exists|info: Result<RuntimeInfoView, LaunchErrorKind>| #[trigger]
            runtime_step(
                exist_test,
                read,
                list,
                newer,
                LaunchOptionsView { jruby_home: Some(place), ..o },
                env,
                place,
                info,
                r,
            ),
    }
}

/// What a resolution of the classified options `o` may end with, told by
/// the answers of the four functions alone: the home was searched for, then
/// the runtime, then the home was looked at, each with the questions that
/// belong to it, and `r` is what follows from the answers.
pub open spec fn resolve_outcome<
    E: Fn(&String) -> bool,
    R: Fn(&String) -> Option<String>,
    L: Fn(&String) -> Listing,
    N: Fn(&String, &String) -> bool,
>(
    exist_test: E,
    read: R,
    list: L,
    newer: N,
    o: LaunchOptionsView,
    env: Environment,
    r: Result<LaunchOptionsView, LaunchErrorKind>,
) -> bool {
    exists|home: Option<Seq<char>>| #[trigger]
        home_step(exist_test, read, list, newer, o, env, home, r)
}

/// What a launch may end with, told by the answers of the four functions
/// alone: the error of the classification, before anything is asked, or
/// what the resolution of the classified options ends with.
pub open spec fn new_outcome<
    E: Fn(&String) -> bool,
    R: Fn(&String) -> Option<String>,
    L: Fn(&String) -> Listing,
    N: Fn(&String, &String) -> bool,
>(
    exist_test: E,
    read: R,
    list: L,
    newer: N,
    env: Environment,
    r: Result<LaunchOptionsView, LaunchErrorKind>,
) -> bool {
    let scan = parsed(empty_options(), env);
    match scan.error {
        Some(kind) => r == Err::<LaunchOptionsView, LaunchErrorKind>(kind),
        None => resolve_outcome(exist_test, read, list, newer, scan.options, env, r),
    }
}

/// Resolves a launch whose command line was classified into `options`:
/// finds the home and the runtime and puts the final flag list together.
///
/// The file system is looked at through the four functions only.
pub fn resolve<
    E: Fn(&String) -> bool + Copy,
    R: Fn(&String) -> Option<String>,
    L: Fn(&String) -> Listing + Copy,
    N: Fn(&String, &String) -> bool,
>(options: LaunchOptions, env: &Environment, exist_test: E, read: R, list: L, newer: N) -> (r:
    Result<LaunchOptions, LaunchError>)
    requires
        askable(exist_test, read, list, newer),
    ensures
        resolve_outcome(exist_test, read, list, newer, options@, *env, outcome_of(r)),
        forall|disk: Disk| #[trigger]
            agrees(exist_test, read, list, newer, disk) ==> outcome_of(r) == resolved_from(
                options@,
                *env,
                disk,
            ),
{
    let ghost scan = options@;
    let mut options = options;
    let home = match env.determine_jruby_home(exist_test) {
        Ok(home) => home,
        Err(e) => {
            proof {
                assert(home_step(
                    exist_test,
                    read,
                    list,
                    newer,
                    scan,
                    *env,
                    None,
                    Err(LaunchErrorKind::HomeNotFound),
                ));
                assert forall|disk: Disk| #[trigger]
                    agrees(exist_test, read, list, newer, disk) implies resolved_from(
                    scan,
                    *env,
                    disk,
                ) == Err::<LaunchOptionsView, LaunchErrorKind>(LaunchErrorKind::HomeNotFound) by {
                    assert(decides(exist_test, disk.present));
                }
            }
            return Err(e);
        },
    };
    options.jruby_home = Some(home);
    let ghost homed = options@;
    assert(homed == (LaunchOptionsView { jruby_home: Some(home@), ..scan }));
    let r = settle(options, env, exist_test, read, list, newer);
    proof {
        assert(home_step(exist_test, read, list, newer, scan, *env, Some(home@), outcome_of(r)));
        assert forall|disk: Disk| #[trigger]
            agrees(exist_test, read, list, newer, disk) implies outcome_of(r) == resolved_from(
            scan,
            *env,
            disk,
        ) by {
            assert(decides(exist_test, disk.present));
            assert(located_home(*env, disk.present) == Some(home@));
        }
    }
    r
}

/// Finds and probes the runtime for options that hold their home, and puts
/// the final flag list together.
fn settle<
    E: Fn(&String) -> bool + Copy,
    R: Fn(&String) -> Option<String>,
    L: Fn(&String) -> Listing + Copy,
    N: Fn(&String, &String) -> bool,
>(options: LaunchOptions, env: &Environment, exist_test: E, read: R, list: L, newer: N) -> (r:
    Result<LaunchOptions, LaunchError>)
    requires
        askable(exist_test, read, list, newer),
        options@.jruby_home is Some,
    ensures
        exists|info: Result<RuntimeInfoView, LaunchErrorKind>| #[trigger]
            runtime_step(
                exist_test,
                read,
                list,
                newer,
                options@,
                *env,
                options@.jruby_home->0,
                info,
                outcome_of(r),
            ),
        forall|disk: Disk| #[trigger]
            agrees(exist_test, read, list, newer, disk) ==> outcome_of(r) == settled_on(
                options@,
                *env,
                disk,
            ),
{
    let ghost homed = options@;
    let ghost home = homed.jruby_home->0;
    let mut options = options;
    if let Err(e) = options.determine_java_location(env, exist_test, read, list) {
        proof {
            let failed = Err::<LaunchOptionsView, LaunchErrorKind>(e.kind);
            assert(runtime_step(
                exist_test,
                read,
                list,
                newer,
                homed,
                *env,
                home,
                Err(e.kind),
                failed,
            ));
            assert forall|disk: Disk| #[trigger]
                agrees(exist_test, read, list, newer, disk) implies settled_on(homed, *env, disk)
                == failed by {
                assert(probes(exist_test, read, list, disk));
            }
        }
        return Err(e);
    }
    let ghost probed = options@;
    assert(probed.jruby_home == Some(home));
    let done = options.prepare_options(env, exist_test, list, newer);
    let r = match done {
        Ok(_) => Ok(options),
        Err(e) => Err(e),
    };
    proof {
        let facts = choose|facts: HomeFactsView|
            home_seen(exist_test, list, newer, probed, *env, home, facts) && #[trigger] ends_as(
                assembled(probed, *env, facts),
                options@,
                done,
            );
        assert(assembly_step(
            exist_test,
            list,
            newer,
            with_runtime(homed, probed.runtime),
            *env,
            home,
            facts,
            outcome_of(r),
        ));
        assert(runtime_step(
            exist_test,
            read,
            list,
            newer,
            homed,
            *env,
            home,
            Ok(probed.runtime),
            outcome_of(r),
        ));
        assert forall|disk: Disk| #[trigger]
            agrees(exist_test, read, list, newer, disk) implies outcome_of(r) == settled_on(
            homed,
            *env,
            disk,
        ) by {
            assert(probes(exist_test, read, list, disk));
            assert(surveys(exist_test, list, newer, disk));
            assert(ends_as(assembled_on(probed, *env, disk), options@, done));
            assert(runtime_on(homed, *env, disk) is Ok);
            assert(probed == with_runtime(homed, runtime_on(homed, *env, disk)->Ok_0));
        }
    }
    r
}

/// Resolves a launch: from the environment and the file system to the
/// options with the final flag list.
///
/// The command line is classified first; an error there ends the launch
/// before anything is looked at. The file system is looked at through the
/// four functions only.
pub fn new<
    E: Fn(&String) -> bool + Copy,
    R: Fn(&String) -> Option<String>,
    L: Fn(&String) -> Listing + Copy,
    N: Fn(&String, &String) -> bool,
>(env: &Environment, exist_test: E, read: R, list: L, newer: N) -> (r: Result<
    LaunchOptions,
    LaunchError,
>)
    requires
        askable(exist_test, read, list, newer),
    ensures
        new_outcome(exist_test, read, list, newer, *env, outcome_of(r)),
        forall|disk: Disk| #[trigger]
            agrees(exist_test, read, list, newer, disk) ==> outcome_of(r) == resolved(*env, disk),
{
    let mut options = LaunchOptions::default();
    if let Err(e) = options.parse(env) {
        return Err(e);
    }
    resolve(options, env, exist_test, read, list, newer)
}

} // verus!
