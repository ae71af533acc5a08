use jruby_launcher::paths::{
    ancestor, base_name, dir_builder, executable_name, has_parent, holds_extension, is_absolute,
    join, join_paths, list_separator, parent, separator, split_paths, Platform,
};

const P: Platform = Platform::Posix;
const W: Platform = Platform::Windows;

#[test]
fn join_puts_one_separator_between() {
    assert_eq!(join(P, "/opt/jruby", "lib"), "/opt/jruby/lib");
    assert_eq!(join(P, "/opt/jruby/", "lib"), "/opt/jruby/lib");
    assert_eq!(join(P, "", "lib"), "lib");
    assert_eq!(join(P, "/", "lib"), "/lib");
    assert_eq!(join(P, "lib", ""), "lib/");
    assert_eq!(join(P, "a", "b/c"), "a/b/c");
}

#[test]
fn join_lets_an_absolute_name_stand() {
    assert_eq!(join(P, "/opt/jruby", "/usr/bin/java"), "/usr/bin/java");
    assert_eq!(join(P, "", "/"), "/");
}

#[test]
fn absolute_paths_start_at_the_root() {
    assert!(is_absolute(P, "/"));
    assert!(is_absolute(P, "/home/user"));
    assert!(!is_absolute(P, ""));
    assert!(!is_absolute(P, "bin/jruby"));
    assert!(!is_absolute(P, "\\\\frogger\\/home"));
}

#[test]
fn parent_drops_the_last_component() {
    assert_eq!(parent(P, "/home/user/jruby/bin/jruby"), Some(String::from("/home/user/jruby/bin")));
    assert_eq!(parent(P, "/home/user/"), Some(String::from("/home")));
    assert_eq!(parent(P, "/home//user"), Some(String::from("/home")));
    assert_eq!(parent(P, "/home"), Some(String::from("/")));
    assert_eq!(parent(P, "bin/jruby"), Some(String::from("bin")));
    assert_eq!(parent(P, "jruby"), Some(String::new()));
    assert_eq!(parent(P, "/"), None);
    assert_eq!(parent(P, "//"), None);
    assert_eq!(parent(P, ""), None);
}

#[test]
fn has_parent_asks_for_a_directory_part() {
    assert!(has_parent(P, "bin/jruby"));
    assert!(has_parent(P, "/jruby"));
    assert!(!has_parent(P, "jruby"));
    assert!(!has_parent(P, ""));
    assert!(!has_parent(P, "/"));
}

#[test]
fn base_name_is_the_last_component() {
    assert_eq!(base_name(P, "bin/jruby"), "jruby");
    assert_eq!(base_name(P, "/usr/bin/java"), "java");
    assert_eq!(base_name(P, "jruby"), "jruby");
    assert_eq!(base_name(P, "bin/jruby//"), "jruby");
    assert_eq!(base_name(P, "/"), "");
    assert_eq!(base_name(P, ""), "");
}

#[test]
fn ancestor_climbs_and_stops_at_the_top() {
    assert_eq!(ancestor(P, "/home/user/jruby/bin/jruby", 0), "/home/user/jruby/bin/jruby");
    assert_eq!(ancestor(P, "/home/user/jruby/bin/jruby", 1), "/home/user/jruby/bin");
    assert_eq!(ancestor(P, "/home/user/jruby/bin/jruby", 2), "/home/user/jruby");
    assert_eq!(ancestor(P, "/jruby", 2), "/");
    assert_eq!(ancestor(P, "bin/jruby", 2), "");
    assert_eq!(ancestor(P, "jruby", 2), "");
    assert_eq!(ancestor(P, "", 2), "");
}

#[test]
fn dir_builder_joins_in_turn() {
    assert_eq!(dir_builder(P, String::from("/opt/java"), vec!["lib", "modules"]), "/opt/java/lib/modules");
    assert_eq!(dir_builder(P, String::from("/opt/java"), vec!["release"]), "/opt/java/release");
    assert_eq!(dir_builder(P, String::from("/opt/java"), vec![]), "/opt/java");
    assert_eq!(dir_builder(P, String::from("/opt/java"), vec!["lib", "/abs", "x"]), "/abs/x");
}

#[test]
fn split_paths_keeps_empty_fields() {
    assert_eq!(split_paths(P, "/a:/b"), vec!["/a", "/b"]);
    assert_eq!(split_paths(P, "/a"), vec!["/a"]);
    assert_eq!(split_paths(P, ""), vec![""]);
    assert_eq!(split_paths(P, "/a:"), vec!["/a", ""]);
    assert_eq!(split_paths(P, ":/a::/b"), vec!["", "/a", "", "/b"]);
}

#[test]
fn join_paths_writes_a_list() {
    let none: Vec<String> = vec![];
    assert_eq!(join_paths(P, &none), Some(String::new()));
    assert_eq!(join_paths(P, &vec![String::from("/a")]), Some(String::from("/a")));
    assert_eq!(
        join_paths(P, &vec![String::from("/a"), String::from("/b"), String::new()]),
        Some(String::from("/a:/b:"))
    );
}

#[test]
fn join_paths_refuses_the_separator() {
    assert_eq!(join_paths(P, &vec![String::from("/a"), String::from("/b:/c")]), None);
    assert_eq!(join_paths(P, &vec![String::from(":")]), None);
}

#[test]
fn split_and_join_are_inverse_on_lists() {
    let list = "/usr/bin::/bin:";
    assert_eq!(join_paths(P, &split_paths(P, list)), Some(String::from(list)));
}

#[test]
fn executable_name_gets_its_ending_on_windows() {
    assert_eq!(executable_name(W, "jruby"), "jruby.exe");
    assert_eq!(executable_name(W, "bin\\jruby"), "bin\\jruby.exe");
    assert_eq!(executable_name(W, "jruby.exe"), "jruby.exe");
    assert_eq!(executable_name(W, "jruby.bat"), "jruby.bat");
    assert_eq!(executable_name(W, "my.dir\\jruby"), "my.dir\\jruby.exe");
    assert_eq!(executable_name(W, ".jruby"), ".jruby.exe");
    assert_eq!(executable_name(P, "jruby"), "jruby");
    assert_eq!(executable_name(P, ""), "");
}

#[test]
fn extension_follows_a_dot_inside_the_name() {
    assert!(holds_extension(P, "jruby.exe"));
    assert!(holds_extension(P, "a/b.c/d.e"));
    assert!(holds_extension(P, "jruby."));
    assert!(holds_extension(P, ".a.b"));
    assert!(!holds_extension(P, "jruby"));
    assert!(!holds_extension(P, ".jruby"));
    assert!(!holds_extension(P, "a.b/jruby"));
    assert!(!holds_extension(P, ".."));
    assert!(!holds_extension(P, "a/.."));
    assert!(!holds_extension(P, "."));
    assert!(!holds_extension(P, ""));
}

#[test]
fn separators_follow_the_platform() {
    assert_eq!(separator(P), '/');
    assert_eq!(separator(W), '\\');
    assert_eq!(list_separator(P), ':');
    assert_eq!(list_separator(W), ';');
}

#[test]
fn windows_paths_are_joined_with_a_backslash() {
    assert_eq!(join(W, "C:\\jruby", "lib"), "C:\\jruby\\lib");
    assert_eq!(join(W, "C:\\jruby\\", "lib"), "C:\\jruby\\lib");
    assert_eq!(join(W, "C:/jruby/", "lib"), "C:/jruby/lib");
    assert_eq!(join(W, "C:\\jruby", "D:\\java"), "D:\\java");
    assert_eq!(join(W, "C:\\jruby", "\\\\host\\share"), "\\\\host\\share");
    assert_eq!(join(W, "C:\\jruby", "\\rooted"), "C:\\jruby\\\\rooted");
    assert_eq!(join(W, "", "lib"), "lib");
    assert_eq!(join(P, "C:\\jruby", "lib"), "C:\\jruby/lib");
}

#[test]
fn windows_paths_are_absolute_with_a_drive_or_two_separators() {
    assert!(is_absolute(W, "C:\\"));
    assert!(is_absolute(W, "c:/jruby"));
    assert!(is_absolute(W, "\\\\frogger\\home"));
    assert!(!is_absolute(W, "\\jruby"));
    assert!(!is_absolute(W, "/jruby"));
    assert!(!is_absolute(W, "C:jruby"));
    assert!(!is_absolute(W, "C:"));
    assert!(!is_absolute(W, "1:\\x"));
    assert!(!is_absolute(W, "bin\\jruby"));
    assert!(!is_absolute(P, "C:\\jruby"));
}

#[test]
fn windows_paths_climb_to_the_drive() {
    assert_eq!(parent(W, "C:\\jruby\\bin\\jruby.exe"), Some(String::from("C:\\jruby\\bin")));
    assert_eq!(parent(W, "C:\\jruby"), Some(String::from("C:\\")));
    assert_eq!(parent(W, "C:\\"), None);
    assert_eq!(parent(W, "\\jruby"), Some(String::from("\\")));
    assert_eq!(parent(W, "bin\\jruby"), Some(String::from("bin")));
    assert_eq!(parent(W, "bin/jruby"), Some(String::from("bin")));
    assert_eq!(parent(W, "jruby"), Some(String::new()));
    assert_eq!(ancestor(W, "C:\\jruby\\bin\\jruby.exe", 2), "C:\\jruby");
    assert_eq!(ancestor(W, "C:\\jruby.exe", 2), "C:\\");
    assert_eq!(base_name(W, "C:\\jruby\\bin\\jruby.exe"), "jruby.exe");
    assert_eq!(base_name(P, "C:\\jruby\\bin\\jruby.exe"), "C:\\jruby\\bin\\jruby.exe");
    assert!(has_parent(W, "bin\\jruby"));
    assert!(!has_parent(P, "bin\\jruby"));
}

#[test]
fn windows_lists_are_split_at_semicolons() {
    assert_eq!(split_paths(W, "C:\\a;D:\\b"), vec!["C:\\a", "D:\\b"]);
    assert_eq!(split_paths(W, "C:\\a"), vec!["C:\\a"]);
    assert_eq!(split_paths(P, "/a;/b"), vec!["/a;/b"]);
    assert_eq!(
        join_paths(W, &vec![String::from("C:\\a"), String::from("D:\\b")]),
        Some(String::from("C:\\a;D:\\b"))
    );
    assert_eq!(join_paths(W, &vec![String::from("a;b")]), None);
    assert_eq!(join_paths(P, &vec![String::from("a;b")]), Some(String::from("a;b")));
}
