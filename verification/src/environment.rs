//! What the launcher learns from the process it runs in, captured once, and
//! the search for the installation home that starts from it.

use vstd::prelude::*;
use crate::file_helper::{answered, decides, find_from_path, search_outcome, searched, total};
use crate::launch_options::{LaunchError, LaunchErrorKind};
use crate::paths::{
    ancestor, ancestor_of, base_name, base_name_of, has_directory_part, has_parent, is_absolute,
    executable_name, executable_name_of, is_absolute_path, join, joined, Platform,
};
use crate::text::opt_text;

verus! {

/// How many times the path of the launcher's own file is climbed to reach
/// the installation home: from the file to its directory, and from there to
/// the home.
pub const HOME_LEVELS: usize = 2;

/// A snapshot of the process environment.
///
/// It exists so that the resolution of a launch can be run on made-up
/// environments: nothing in the library reads the real one.
pub struct Environment {
    /// The command-line arguments, the launcher's own name first.
    pub args: Vec<String>,
    /// `CLASSPATH`
    pub classpath: Option<String>,
    /// The working directory, where it is known.
    pub current_dir: Option<String>,
    /// `JAVACMD`
    pub java_cmd: Option<String>,
    /// `JAVA_ENCODING`
    pub java_encoding: Option<String>,
    /// `JAVA_HOME`
    pub java_home: Option<String>,
    /// `JAVA_MEM`
    pub java_mem: Option<String>,
    /// `JAVA_OPTS`
    pub java_opts: Option<String>,
    /// `JAVA_STACK`
    pub java_stack: Option<String>,
    /// `JRUBY_OPTS`
    pub jruby_opts: Option<String>,
    /// `JRUBY_HOME`
    pub jruby_home: Option<String>,
    /// `PATH`
    pub path: Option<String>,
    /// The variable that names the shared-class archive to use.
    pub jruby_jsa_file: Option<String>,
    /// The path of the running launcher as the operating system reports it,
    /// where it does.
    pub executable_path: Option<String>,
    /// The platform that the launcher runs on.
    pub platform: Platform,
    /// Whether `/dev/urandom` was probed and can be read. `false` on a
    /// platform where no probe is made.
    pub urandom_readable: bool,
    /// Whether the platform needs the file encoding of the runtime forced
    /// to UTF-8.
    pub encoding_sensitive: bool,
}

/// The path that stands for the launcher when only its name on the command
/// line is known.
///
/// An absolute name stands for itself. A name with a directory part is
/// read against the working directory where that is known and the joined
/// path is present. Otherwise the last component of the name is looked for
/// along `path`, and the name itself is what is left when that finds
/// nothing.
pub open spec fn derived_from_argv0(
    platform: Platform,
    argv0: Seq<char>,
    current_dir: Option<Seq<char>>,
    path: Option<Seq<char>>,
    present: spec_fn(Seq<char>) -> bool,
) -> Seq<char> {
    if is_absolute_path(platform, argv0) {
        argv0
    } else if has_directory_part(platform, argv0) && current_dir is Some && present(
        joined(platform, current_dir->0, argv0),
    ) {
        joined(platform, current_dir->0, argv0)
    } else {
        match searched(platform, base_name_of(platform, argv0), path, present) {
            Some(found) => found,
            None => argv0,
        }
    }
}

/// What deriving a path from the launcher's name may end with, told by the
/// answers of `test` alone.
pub open spec fn derive_outcome<T: Fn(&String) -> bool>(
    platform: Platform,
    test: T,
    argv0: Seq<char>,
    current_dir: Option<Seq<char>>,
    path: Option<Seq<char>>,
    r: Seq<char>,
) -> bool {
    let joins = has_directory_part(platform, argv0) && current_dir is Some;
    if is_absolute_path(platform, argv0) {
        r == argv0
    } else {
        ||| joins && answered(test, joined(platform, current_dir->0, argv0), true) && r == joined(
            platform,
            current_dir->0,
            argv0,
        )
        ||| (joins ==> answered(test, joined(platform, current_dir->0, argv0), false)) && exists|
            found: Option<Seq<char>>,
        |
            #[trigger] search_outcome(
                platform,
                test,
                base_name_of(platform, argv0),
                path,
                found,
            ) && r == (match found {
                Some(place) => place,
                None => argv0,
            })
    }
}

/// What the search for the installation may end with, told by the answers
/// of `test` alone.
pub open spec fn locate_outcome<T: Fn(&String) -> bool>(
    test: T,
    env: Environment,
    r: Option<(Seq<char>, bool)>,
) -> bool {
    let named = env.jruby_home is Some;
    let bin = joined(env.platform, env.jruby_home->0@, "bin"@);
    if named && r == Some((env.jruby_home->0@, true)) {
        answered(test, bin, true)
    } else {
        &&& named ==> answered(test, bin, false)
        &&& if env.executable_path is Some {
            r == Some((env.executable_path->0@, false))
        } else if env.args@.len() == 0 {
            r is None
        } else {
            exists|place: Seq<char>| #[trigger]
                derive_outcome(
                    env.platform,
                    test,
                    launcher_name(env),
                    opt_text(env.current_dir),
                    opt_text(env.path),
                    place,
                ) && (if r is Some {
                    r == Some((place, false)) && answered(test, place, true)
                } else {
                    answered(test, place, false)
                })
        }
    }
}

/// The name under which the launcher was started, as the name of a file
/// that can be started on the platform. Meaningful where there are
/// arguments.
pub open spec fn launcher_name(env: Environment) -> Seq<char> {
    executable_name_of(env.platform, env.args@[0]@)
}

/// What the search for the installation found.
pub enum Located {
    /// The home itself, named by `JRUBY_HOME`.
    Home(String),
    /// The launcher's own file, two levels below the home.
    Executable(String),
}

/// The place that the search settles on, with `true` where it is the home
/// itself and `false` where it is the launcher's own file; `None` where the
/// search fails.
///
/// In order: `JRUBY_HOME` where it holds a `bin`; the path that the
/// operating system reports; the path derived from the launcher's name,
/// which must be present.
pub open spec fn located(env: Environment, present: spec_fn(Seq<char>) -> bool) -> Option<
    (Seq<char>, bool),
> {
    if env.jruby_home is Some && present(joined(env.platform, env.jruby_home->0@, "bin"@)) {
        Some((env.jruby_home->0@, true))
    } else if env.executable_path is Some {
        Some((env.executable_path->0@, false))
    } else if env.args@.len() == 0 {
        None
    } else {
        let place = derived_from_argv0(
            env.platform,
            launcher_name(env),
            opt_text(env.current_dir),
            opt_text(env.path),
            present,
        );
        if present(place) {
            Some((place, false))
        } else {
            None
        }
    }
}

/// The installation home for what the search settled on: `JRUBY_HOME` as
/// it is, or the launcher's own file climbed to its directory and on to the
/// home.
pub open spec fn home_from(platform: Platform, found: (Seq<char>, bool)) -> Seq<char> {
    if found.1 {
        found.0
    } else {
        ancestor_of(platform, found.0, HOME_LEVELS as nat)
    }
}

/// The installation home that the search leads to.
pub open spec fn located_home(env: Environment, present: spec_fn(Seq<char>) -> bool) -> Option<
    Seq<char>,
> {
    match located(env, present) {
        Some(found) => Some(home_from(env.platform, found)),
        None => None,
    }
}

/// The home `home`, or none, is what follows from `found`, which the search
/// for the installation may have ended with.
pub open spec fn home_found<T: Fn(&String) -> bool>(
    test: T,
    env: Environment,
    found: Option<(Seq<char>, bool)>,
    home: Option<Seq<char>>,
) -> bool {
    locate_outcome(test, env, found) && home == match found {
        Some(place) => Some(home_from(env.platform, place)),
        None => None,
    }
}

/// What a search for the installation found, with its mark, or nothing.
pub open spec fn marked_of(found: Result<Located, LaunchError>) -> Option<(Seq<char>, bool)> {
    match found {
        Ok(place) => Some(place.marked()),
        Err(_) => None,
    }
}

/// What the search for the installation home may end with, told by the
/// answers of `test` alone.
pub open spec fn home_outcome<T: Fn(&String) -> bool>(
    test: T,
    env: Environment,
    home: Option<Seq<char>>,
) -> bool {
    exists|found: Option<(Seq<char>, bool)>| #[trigger] home_found(test, env, found, home)
}

impl Located {
    /// The path that was found.
    pub open spec fn place(self) -> Seq<char> {
        match self {
            Located::Home(p) => p@,
            Located::Executable(p) => p@,
        }
    }

    /// The path with the mark that tells a home from a file.
    pub open spec fn marked(self) -> (Seq<char>, bool) {
        (self.place(), self is Home)
    }
}

impl Environment {
    /// An environment on a POSIX platform with no arguments and no
    /// variable set.
    pub fn empty() -> (r: Environment)
        ensures
            r.platform == Platform::Posix,
            r.args@.len() == 0,
            r.classpath is None,
            r.current_dir is None,
            r.java_cmd is None,
            r.java_encoding is None,
            r.java_home is None,
            r.java_mem is None,
            r.java_opts is None,
            r.java_stack is None,
            r.jruby_opts is None,
            r.jruby_home is None,
            r.path is None,
            r.jruby_jsa_file is None,
            r.executable_path is None,
            !r.urandom_readable,
            !r.encoding_sensitive,
    {
        Environment {
            args: Vec::new(),
            classpath: None,
            current_dir: None,
            java_cmd: None,
            java_encoding: None,
            java_home: None,
            java_mem: None,
            java_opts: None,
            java_stack: None,
            jruby_opts: None,
            jruby_home: None,
            path: None,
            jruby_jsa_file: None,
            executable_path: None,
            platform: Platform::Posix,
            urandom_readable: false,
            encoding_sensitive: false,
        }
    }

    /// The name under which the launcher was started, where the arguments
    /// hold one.
    pub fn argv0(&self) -> (r: Option<String>)
        ensures
            self.args@.len() == 0 ==> r is None,
            self.args@.len() > 0 ==> r is Some && r->0@ == launcher_name(*self),
    {
        if self.args.len() == 0 {
            None
        } else {
            Some(executable_name(self.platform, self.args[0].as_str()))
        }
    }

    /// Return a possible place of the launcher by likelihood:
    ///  1. an absolute name is taken as it is;
    ///  2. a name with a directory part, joined to the working directory;
    ///  3. the last component of the name, found along `path`;
    ///  4. the name itself.
    pub fn derive_home_from_argv0<T: Fn(&String) -> bool>(
        &self,
        argv0: &String,
        path: &Option<String>,
        test: T,
    ) -> (r: String)
        requires
            total(test),
        ensures
            derive_outcome(
                self.platform,
                test,
                argv0@,
                opt_text(self.current_dir),
                opt_text(*path),
                r@,
            ),
            forall|present: spec_fn(Seq<char>) -> bool| #[trigger]
                decides(test, present) ==> r@ == derived_from_argv0(
                    self.platform,
                    argv0@,
                    opt_text(self.current_dir),
                    opt_text(*path),
                    present,
                ),
    {
        if is_absolute(self.platform, argv0.as_str()) {
            return argv0.as_str().to_owned();
        }
        if has_parent(self.platform, argv0.as_str()) {
            if let Some(dir) = &self.current_dir {
                let combined = join(self.platform, dir.as_str(), argv0.as_str());
                if test(&combined) {
                    assert(answered(test, combined@, true));
                    return combined;
                }
                assert(answered(test, combined@, false));
            }
        }
        let name = base_name(self.platform, argv0.as_str());
        let found = find_from_path(self.platform, name.as_str(), path, test);
        assert(search_outcome(
            self.platform,
            test,
            base_name_of(self.platform, argv0@),
            opt_text(*path),
            opt_text(found),
        ));
        match found {
            Some(place) => place,
            None => argv0.as_str().to_owned(),
        }
    }

    /// Where the launcher, or the installation itself, is.
    ///
    /// `JRUBY_HOME` wins where it holds a `bin`; then the path that the
    /// operating system reports for the running launcher; then the path
    /// derived from the launcher's name, which must exist.
    pub fn determine_jruby_executable<T: Fn(&String) -> bool + Copy>(&self, exist_test: T) -> (r:
        Result<Located, LaunchError>)
        requires
            total(exist_test),
        ensures
            r is Err ==> r->Err_0.kind == LaunchErrorKind::HomeNotFound,
            locate_outcome(exist_test, *self, marked_of(r)),
            forall|present: spec_fn(Seq<char>) -> bool| #[trigger]
                decides(exist_test, present) ==> match located(*self, present) {
                    Some(place) => r is Ok && r->Ok_0.marked() == place,
                    None => r is Err,
                },
    {
        if let Some(home) = &self.jruby_home {
            let bin = join(self.platform, home.as_str(), "bin");
            if exist_test(&bin) {
                assert(answered(exist_test, bin@, true));
                return Ok(Located::Home(home.as_str().to_owned()));
            }
            assert(answered(exist_test, bin@, false));
        }
        if let Some(exe) = &self.executable_path {
            return Ok(Located::Executable(exe.as_str().to_owned()));
        }
        let name = match self.argv0() {
            Some(name) => name,
            None => {
                return Err(LaunchError::new(LaunchErrorKind::HomeNotFound));
            },
        };
        let place = self.derive_home_from_argv0(&name, &self.path, exist_test);
        if !exist_test(&place) {
            assert(answered(exist_test, place@, false));
            return Err(LaunchError::new(LaunchErrorKind::HomeNotFound));
        }
        assert(answered(exist_test, place@, true));
        Ok(Located::Executable(place))
    }

    /// The installation home.
    pub fn determine_jruby_home<T: Fn(&String) -> bool + Copy>(&self, exist_test: T) -> (r: Result<
        String,
        LaunchError,
    >)
        requires
            total(exist_test),
        ensures
            r is Err ==> r->Err_0.kind == LaunchErrorKind::HomeNotFound,
            home_outcome(
                exist_test,
                *self,
                match r {
                    Ok(home) => Some(home@),
                    Err(_) => None,
                },
            ),
            forall|present: spec_fn(Seq<char>) -> bool| #[trigger]
                decides(exist_test, present) ==> match located_home(*self, present) {
                    Some(home) => r is Ok && r->Ok_0@ == home,
                    None => r is Err,
                },
    {
        let found = self.determine_jruby_executable(exist_test);
        let ghost marked = marked_of(found);
        let r = match found {
            Ok(Located::Home(home)) => Ok(home),
            Ok(Located::Executable(exe)) => Ok(ancestor(self.platform, exe.as_str(), HOME_LEVELS)),
            Err(e) => Err(e),
        };
        assert(home_found(
            exist_test,
            *self,
            marked,
            match r {
                Ok(home) => Some(home@),
                Err(_) => None,
            },
        ));
        r
    }
}

/// With no home named and no path reported by the operating system, an
/// absolute launcher name decides the home by itself: where it is present
/// the home is two levels above it, whatever the search path holds, and
/// where it is not there is no home.
pub proof fn law_absolute_argv0_decides(env: Environment, present: spec_fn(Seq<char>) -> bool)
    requires
        env.jruby_home is None,
        env.executable_path is None,
        env.args@.len() > 0,
        is_absolute_path(env.platform, launcher_name(env)),
    ensures
        located_home(env, present) == if present(launcher_name(env)) {
            Some(ancestor_of(env.platform, launcher_name(env), HOME_LEVELS as nat))
        } else {
            None
        },
{
}

/// A launcher name with a directory part that is not absolute stands for
/// the path joined from the working directory and the name, where that path
/// is present.
pub proof fn law_relative_argv0_joins_working_directory(
    platform: Platform,
    argv0: Seq<char>,
    current_dir: Seq<char>,
    path: Option<Seq<char>>,
    present: spec_fn(Seq<char>) -> bool,
)
    requires
        !is_absolute_path(platform, argv0),
        has_directory_part(platform, argv0),
        present(joined(platform, current_dir, argv0)),
    ensures
        derived_from_argv0(
            platform,
            argv0,
            Some(current_dir),
            path,
            present,
        ) == joined(platform, current_dir, argv0),
{
}

/// A launcher name that is not absolute stands for itself, unchanged, where
/// the working directory is not known and the search path holds no match.
pub proof fn law_argv0_is_the_last_resort(
    platform: Platform,
    argv0: Seq<char>,
    path: Option<Seq<char>>,
    present: spec_fn(Seq<char>) -> bool,
)
    requires
        !is_absolute_path(platform, argv0),
        searched(platform, base_name_of(platform, argv0), path, present) is None,
    ensures
        derived_from_argv0(platform, argv0, None, path, present) == argv0,
{
}

} // verus!
