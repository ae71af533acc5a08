use jruby_launcher::environment::{Environment, Located};
use jruby_launcher::file_helper::find_from_path;
use jruby_launcher::launch_options::LaunchErrorKind;
use jruby_launcher::paths::Platform;
use std::path::{Path, PathBuf, MAIN_SEPARATOR};

fn empty_env() -> Environment {
    Environment {
        args: vec![],
        classpath: None,
        current_dir: None,
        java_cmd: None,
        java_encoding: None,
        java_home: None,
        java_mem: None,
        java_opts: None,
        java_stack: None,
        jruby_opts: None,
        jruby_home: None,
        path: None,
        jruby_jsa_file: None,
        executable_path: None,
        platform: Platform::Posix,
        urandom_readable: false,
        encoding_sensitive: false,
    }
}

fn text(path: PathBuf) -> String {
    path.to_str().unwrap().to_string()
}

#[test]
fn test_determine_jruby_home() {
    let mut env = empty_env();
    let traditional_home: PathBuf =
        [MAIN_SEPARATOR.to_string().as_str(), "home", "user", "jruby"].iter().collect();
    let absolute: PathBuf =
        [MAIN_SEPARATOR.to_string().as_str(), "home", "user", "jruby", "bin", "jruby"]
            .iter()
            .collect();
    let absolute = text(absolute);
    let argv0 = &absolute;
    let test = |f: &String| Path::new(f).exists();

    env.jruby_home = Some(text(traditional_home));

    assert_eq!(env.derive_home_from_argv0(&argv0, &None, test), absolute);
}

#[test]
fn test_jruby_home_argv0() {
    let mut env = empty_env();
    let absolute: PathBuf =
        [MAIN_SEPARATOR.to_string().as_str(), "home", "user", "jruby", "bin", "jruby"]
            .iter()
            .collect();
    let absolute = text(absolute);
    let argv0 = &absolute;
    let test = |f: &String| Path::new(f).exists();

    assert_eq!(env.derive_home_from_argv0(&argv0, &None, test), absolute);

    let argv0: PathBuf = ["bin", "jruby"].iter().collect();
    let argv0 = text(argv0);
    let traditional_home: PathBuf =
        [MAIN_SEPARATOR.to_string().as_str(), "home", "user", "jruby"].iter().collect();
    let traditional_home = text(traditional_home);
    env.current_dir = Some(traditional_home.clone());
    let absolute_test = |f: &String| f == &absolute;

    assert_eq!(env.derive_home_from_argv0(&argv0, &None, absolute_test), absolute);

    env.current_dir = None;

    assert_eq!(env.derive_home_from_argv0(&argv0, &None, test), argv0);

    // Along the search path only the last component of the name is looked for.
    let test_home = absolute.clone();
    let path = Some(traditional_home);
    let path_test = |t: &String| t == &test_home;

    assert_eq!(env.derive_home_from_argv0(&argv0, &path, path_test), argv0);
}

#[test]
fn argv0_is_found_by_its_last_component() {
    let env = empty_env();
    let argv0 = String::from("bin/jruby");
    let path = Some(String::from("/home/user/jruby/bin"));
    let path_test = |t: &String| t == "/home/user/jruby/bin/jruby";

    assert_eq!(env.derive_home_from_argv0(&argv0, &path, path_test), "/home/user/jruby/bin/jruby");
}

#[test]
fn test_jruby_home_argv0_windows_specific() {
    let env = empty_env();
    let absolute: PathBuf =
        [r"\\frogger\", "home", "user", "jruby", "bin", "jruby"].iter().collect();
    let absolute = text(absolute);
    let argv0 = &absolute;
    let test = |f: &String| Path::new(f).exists();

    assert_eq!(env.derive_home_from_argv0(&argv0, &None, test), absolute);
}

#[test]
fn find_from_path_takes_the_first_match_in_order() {
    let path = Some(String::from("/a:/b:/c"));
    let found = find_from_path(Platform::Posix, "java", &path, |p: &String| p == "/b/java" || p == "/c/java");
    assert_eq!(found, Some(String::from("/b/java")));
}

#[test]
fn find_from_path_finds_nothing_without_a_match() {
    let path = Some(String::from("/a:/b:/c"));
    assert_eq!(find_from_path(Platform::Posix, "java", &path, |_p: &String| false), None);
}

#[test]
fn find_from_path_finds_nothing_without_a_list() {
    assert_eq!(find_from_path(Platform::Posix, "java", &None, |_p: &String| true), None);
}

#[test]
fn find_from_path_reads_empty_entries() {
    let path = Some(String::from(":/usr/bin/"));
    let found = find_from_path(Platform::Posix, "java", &path, |p: &String| p == "java");
    assert_eq!(found, Some(String::from("java")));
    let found = find_from_path(Platform::Posix, "java", &path, |p: &String| p == "/usr/bin/java");
    assert_eq!(found, Some(String::from("/usr/bin/java")));
    let found = find_from_path(Platform::Posix, "java", &Some(String::new()), |p: &String| p == "java");
    assert_eq!(found, Some(String::from("java")));
}

#[test]
fn home_from_absolute_argv0_ignores_the_search_path() {
    let mut env = empty_env();
    env.args = vec![String::from("/home/user/jruby/bin/jruby")];
    env.path = Some(String::from("/elsewhere/bin"));
    let home = env.determine_jruby_home(|_p: &String| true).unwrap();
    assert_eq!(home, "/home/user/jruby");
    let only = env
        .determine_jruby_home(|p: &String| p == "/home/user/jruby/bin/jruby")
        .unwrap();
    assert_eq!(only, "/home/user/jruby");
}

#[test]
fn home_from_relative_argv0_and_working_directory() {
    let mut env = empty_env();
    env.args = vec![String::from("bin/jruby")];
    env.current_dir = Some(String::from("/home/user/jruby"));
    let accept = |p: &String| p == "/home/user/jruby/bin/jruby";
    assert_eq!(
        env.derive_home_from_argv0(&String::from("bin/jruby"), &None, accept),
        "/home/user/jruby/bin/jruby"
    );
    match env.determine_jruby_executable(accept).unwrap() {
        Located::Executable(p) => assert_eq!(p, "/home/user/jruby/bin/jruby"),
        Located::Home(_) => panic!("not the home itself"),
    }
    assert_eq!(env.determine_jruby_home(accept).unwrap(), "/home/user/jruby");
}

#[test]
fn home_falls_back_to_the_literal_argv0() {
    let mut env = empty_env();
    env.args = vec![String::from("bin/jruby")];
    env.path = Some(String::from("/usr/bin:/bin"));
    let candidate =
        env.derive_home_from_argv0(&String::from("bin/jruby"), &env.path, |_p: &String| false);
    assert_eq!(candidate, "bin/jruby");
    let err = env.determine_jruby_home(|_p: &String| false).unwrap_err();
    assert_eq!(err.kind, LaunchErrorKind::HomeNotFound);
    assert_eq!(err.message(), "unable to find JRuby home");
    assert_eq!(err.describe(), "Launch Options Error: unable to find JRuby home");
    let home = env.determine_jruby_home(|p: &String| p == "bin/jruby").unwrap();
    assert_eq!(home, "");
}

#[test]
fn home_from_the_search_path() {
    let mut env = empty_env();
    env.args = vec![String::from("jruby")];
    env.path = Some(String::from("/usr/bin:/opt/jruby/bin"));
    let accept = |p: &String| p == "/opt/jruby/bin/jruby";
    assert_eq!(env.determine_jruby_home(accept).unwrap(), "/opt/jruby");
}

#[test]
fn home_override_wins_and_is_not_climbed() {
    let mut env = empty_env();
    env.args = vec![String::from("/usr/local/bin/jruby")];
    env.jruby_home = Some(String::from("/opt/jruby"));
    env.executable_path = Some(String::from("/somewhere/else/bin/jruby"));
    let home = env.determine_jruby_home(|p: &String| p == "/opt/jruby/bin").unwrap();
    assert_eq!(home, "/opt/jruby");
    match env.determine_jruby_executable(|p: &String| p == "/opt/jruby/bin").unwrap() {
        Located::Home(p) => assert_eq!(p, "/opt/jruby"),
        Located::Executable(_) => panic!("the home itself was named"),
    }
}

#[test]
fn home_override_without_bin_is_passed_over() {
    let mut env = empty_env();
    env.args = vec![String::from("/usr/local/bin/jruby")];
    env.jruby_home = Some(String::from("/opt/jruby"));
    env.executable_path = Some(String::from("/somewhere/else/bin/jruby"));
    let home = env.determine_jruby_home(|_p: &String| false).unwrap();
    assert_eq!(home, "/somewhere/else");
}

#[test]
fn home_without_arguments_is_not_found() {
    let env = empty_env();
    let err = env.determine_jruby_home(|_p: &String| true).unwrap_err();
    assert_eq!(err.kind, LaunchErrorKind::HomeNotFound);
    assert_eq!(env.argv0(), None);
}

#[test]
fn empty_environment_is_empty() {
    let env = Environment::empty();
    assert!(env.args.is_empty());
    assert!(env.path.is_none());
    assert!(env.jruby_home.is_none());
    assert!(!env.urandom_readable);
    let mut named = Environment::empty();
    named.args = vec![String::from("jruby"), String::from("-v")];
    assert_eq!(named.argv0(), Some(String::from("jruby")));
}

#[test]
fn home_on_windows() {
    let mut env = empty_env();
    env.platform = Platform::Windows;
    env.args = vec![String::from("C:\\jruby\\bin\\jruby")];
    assert_eq!(env.argv0(), Some(String::from("C:\\jruby\\bin\\jruby.exe")));
    let home = env
        .determine_jruby_home(|p: &String| p == "C:\\jruby\\bin\\jruby.exe")
        .unwrap();
    assert_eq!(home, "C:\\jruby");
    env.args = vec![String::from("jruby.exe")];
    env.path = Some(String::from("C:\\windows;D:\\jruby\\bin"));
    let home =
        env.determine_jruby_home(|p: &String| p == "D:\\jruby\\bin\\jruby.exe").unwrap();
    assert_eq!(home, "D:\\jruby");
    env.jruby_home = Some(String::from("E:\\jruby"));
    let home = env.determine_jruby_home(|p: &String| p == "E:\\jruby\\bin").unwrap();
    assert_eq!(home, "E:\\jruby");
}
