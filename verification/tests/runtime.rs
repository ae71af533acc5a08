use jruby_launcher::disk::Listing;
use jruby_launcher::environment::Environment;
use jruby_launcher::paths::Platform;
use jruby_launcher::launch_options::{LaunchErrorKind, LaunchOptions, RuntimeInfo};
use jruby_launcher::runtime::{
    find_java_version, grep, java_has_appcds, lines, major_version, probe_runtime,
    supports, survey_java_home, Capability, JavaHomeFacts,
};

const RELEASE: &str = "IMPLEMENTOR=\"Eclipse Adoptium\"\nJAVA_RUNTIME_VERSION=\"17.0.2+8\"\nJAVA_VERSION=\"17.0.2\"\nJAVA_VERSION_DATE=\"2022-01-18\"\n";

#[test]
fn major_version_reads_the_first_number() {
    assert_eq!(major_version("17.0.2"), Some(17));
    assert_eq!(major_version("1.8.0_292"), Some(1));
    assert_eq!(major_version("21"), Some(21));
    assert_eq!(major_version("9.0"), Some(9));
    assert_eq!(major_version("007.1"), Some(7));
    assert_eq!(major_version("+11.0"), Some(11));
    assert_eq!(major_version("65535.1"), Some(65535));
}

#[test]
fn major_version_refuses_what_is_no_number() {
    assert_eq!(major_version(""), None);
    assert_eq!(major_version(".5"), None);
    assert_eq!(major_version("+"), None);
    assert_eq!(major_version("+.1"), None);
    assert_eq!(major_version("1_8.0"), None);
    assert_eq!(major_version("-5.0"), None);
    assert_eq!(major_version("abc"), None);
    assert_eq!(major_version("65536.0"), None);
    assert_eq!(major_version("99999999999999999999"), None);
    assert_eq!(major_version("١٧.0"), None);
}

#[test]
fn lines_end_at_line_feeds() {
    assert_eq!(lines("a\nb\r\nc"), vec!["a", "b", "c"]);
    assert_eq!(lines("a\n"), vec!["a"]);
    assert_eq!(lines("a\n\nb"), vec!["a", "", "b"]);
    assert_eq!(lines(""), Vec::<String>::new());
    assert_eq!(lines("\n"), vec![""]);
    assert_eq!(lines("a\r"), vec!["a\r"]);
    assert_eq!(lines("a\r\r\n"), vec!["a\r"]);
}

#[test]
fn grep_keeps_matching_lines() {
    let found = grep(RELEASE, "^JAVA_VERSION=").unwrap();
    assert_eq!(found, vec!["JAVA_VERSION=\"17.0.2\""]);
    let found = grep(RELEASE, "VERSION").unwrap();
    assert_eq!(
        found,
        vec![
            "JAVA_RUNTIME_VERSION=\"17.0.2+8\"",
            "JAVA_VERSION=\"17.0.2\"",
            "JAVA_VERSION_DATE=\"2022-01-18\"",
        ]
    );
    assert_eq!(grep(RELEASE, "^OS_ARCH="), None);
    assert_eq!(grep("", ""), None);
    assert_eq!(grep("x", "("), None);
}

#[test]
fn find_java_version_takes_digits_and_dots() {
    assert_eq!(find_java_version(&Some(String::from(RELEASE))), Some(String::from("17.0.2")));
    assert_eq!(
        find_java_version(&Some(String::from("JAVA_VERSION=\"21.0.1\"\n"))),
        Some(String::from("21.0.1"))
    );
    assert_eq!(
        find_java_version(&Some(String::from("JAVA_VERSION= 1.8.0_292\r\n"))),
        Some(String::from("1.8.0"))
    );
    assert_eq!(
        find_java_version(&Some(String::from("JAVA_VERSION=\"9\"\nJAVA_VERSION=\"10\"\n"))),
        Some(String::from("9"))
    );
}

#[test]
fn find_java_version_finds_nothing() {
    assert_eq!(find_java_version(&None), None);
    assert_eq!(find_java_version(&Some(String::new())), None);
    assert_eq!(find_java_version(&Some(String::from(" JAVA_VERSION=\"17\"\n"))), None);
    assert_eq!(find_java_version(&Some(String::from("JAVA_VERSION=\"unknown\"\n"))), None);
    assert_eq!(find_java_version(&Some(String::from("OTHER=1\n"))), None);
}

#[test]
fn find_java_version_follows_the_pattern() {
    assert_eq!(
        find_java_version(&Some(String::from("JAVA_VERSION=\".1\"\n"))),
        Some(String::from("1"))
    );
    assert_eq!(
        find_java_version(&Some(String::from("JAVA_VERSION=\".\"\n"))),
        Some(String::from("."))
    );
    assert_eq!(
        find_java_version(&Some(String::from("JAVA_VERSION=build-17.0.2-ea\n"))),
        Some(String::from("17.0.2"))
    );
}

#[test]
fn java_has_appcds_looks_for_archives() {
    let with = Listing::Entries(vec![
        String::from("/opt/java/lib/server/libjvm.so"),
        String::from("/opt/java/lib/server/classes.jsa"),
    ]);
    assert!(java_has_appcds(&with));
    let without =
        Listing::Entries(vec![String::from("/opt/java/lib/server/libjvm.so"), String::from("jsa")]);
    assert!(!java_has_appcds(&without));
    assert!(!java_has_appcds(&Listing::Entries(vec![])));
    assert!(!java_has_appcds(&Listing::NoDirectory));
    assert!(!java_has_appcds(&Listing::Unreadable));
    assert!(java_has_appcds(&Listing::Entries(vec![String::from(".jsa")])));
}

fn facts(release: &str, entries: Listing) -> JavaHomeFacts {
    JavaHomeFacts { modular: true, release: Some(String::from(release)), server_entries: entries }
}

fn probed(version: &str) -> RuntimeInfo {
    let release = format!("JAVA_VERSION=\"{}\"\n", version);
    probe_runtime(Some(String::from("/opt/java/bin/java")), String::from("/opt/java"), &facts(&release, Listing::NoDirectory))
        .unwrap()
}

#[test]
fn probe_runtime_fills_the_info() {
    let info = probe_runtime(
        Some(String::from("/opt/java/bin/java")),
        String::from("/opt/java"),
        &facts(RELEASE, Listing::Entries(vec![String::from("/opt/java/lib/server/classes.jsa")])),
    )
    .unwrap();
    assert_eq!(info.java_location, Some(String::from("/opt/java/bin/java")));
    assert_eq!(info.java_home, Some(String::from("/opt/java")));
    assert!(info.java_is_modular);
    assert_eq!(info.java_version, "17.0.2");
    assert_eq!(info.java_major_version, 17);
    assert!(info.java_has_appcds);
    assert!(info.use_appcds);
    assert!(!info.appcds_autogenerate);
    assert!(!info.native_access);
    assert!(!info.unsafe_memory);
}

#[test]
fn probe_runtime_gates_by_major_version() {
    let gates = |v: &str| {
        let info = probed(v);
        (info.appcds_autogenerate, info.native_access, info.unsafe_memory)
    };
    assert_eq!(gates("18.0.1"), (false, false, false));
    assert_eq!(gates("19"), (true, false, false));
    assert_eq!(gates("21.0.1"), (true, false, false));
    assert_eq!(gates("22.0.0"), (true, true, false));
    assert_eq!(gates("23.0.1"), (true, true, true));
    assert_eq!(gates("1.8.0_292"), (false, false, false));
}

#[test]
fn make_version_decisions_follows_the_major_version() {
    let mut info = RuntimeInfo::default();
    info.java_major_version = 22;
    info.make_version_decisions();
    assert!(info.appcds_autogenerate);
    assert!(info.native_access);
    assert!(!info.unsafe_memory);
}

#[test]
fn probe_runtime_fails_without_a_version() {
    let none =
        JavaHomeFacts { modular: false, release: None, server_entries: Listing::NoDirectory };
    let err = probe_runtime(None, String::from("/opt/java"), &none).unwrap_err();
    assert_eq!(err.kind, LaunchErrorKind::RuntimeVersionUnresolvable);
    let err = probe_runtime(None, String::from("/opt/java"), &facts("JAVA_VERSION=\"x\"\n", Listing::NoDirectory))
        .unwrap_err();
    assert_eq!(err.kind, LaunchErrorKind::RuntimeVersionUnresolvable);
    let err = probe_runtime(None, String::from("/opt/java"), &facts("JAVA_VERSION=\".\"\n", Listing::NoDirectory))
        .unwrap_err();
    assert_eq!(err.kind, LaunchErrorKind::RuntimeVersionUnresolvable);
    let err =
        probe_runtime(None, String::from("/opt/java"), &facts("JAVA_VERSION=\"70000\"\n", Listing::NoDirectory))
            .unwrap_err();
    assert_eq!(err.kind, LaunchErrorKind::RuntimeVersionUnresolvable);
}

#[test]
fn survey_java_home_asks_the_right_paths() {
    let facts = survey_java_home(
        Platform::Posix,
        "/opt/java",
        |p: &String| p == "/opt/java/release",
        |p: &String| if p == "/opt/java/release" { Some(String::from(RELEASE)) } else { None },
        |p: &String| {
            if p == "/opt/java/lib/server" {
                Listing::Entries(vec![String::from("x.jsa")])
            } else {
                Listing::NoDirectory
            }
        },
    );
    assert!(facts.modular);
    assert_eq!(facts.release, Some(String::from(RELEASE)));
    assert!(matches!(&facts.server_entries, Listing::Entries(e) if e == &vec![String::from("x.jsa")]));
    let facts = survey_java_home(
        Platform::Posix,
        "/opt/java",
        |p: &String| p == "/opt/java/lib/modules",
        |_p: &String| None,
        |_p: &String| Listing::NoDirectory,
    );
    assert!(facts.modular);
    assert_eq!(facts.release, None);
    let facts =
        survey_java_home(
        Platform::Posix,
        "/opt/java",
        |_p: &String| false,
        |_p: &String| None,
        |_p: &String| Listing::NoDirectory,
    );
    assert!(!facts.modular);
}

fn env() -> Environment {
    let mut env = Environment::empty();
    env.args = vec![String::from("jruby")];
    env
}

#[test]
fn find_java_prefers_javacmd_then_jdk_home_then_java_home_then_path() {
    let never = |_p: &String| false;
    let mut e = env();
    e.path = Some(String::from("/usr/bin:/usr/local/bin"));
    let mut options = LaunchOptions::default();
    assert_eq!(options.find_java(&e, never), None);
    assert_eq!(
        options.find_java(&e, |p: &String| p == "/usr/local/bin/java"),
        Some(String::from("/usr/local/bin/java"))
    );
    e.java_home = Some(String::from("/opt/java"));
    assert_eq!(options.find_java(&e, never), Some(String::from("/opt/java/bin/java")));
    options.jdk_home = Some(String::from("/opt/jdk"));
    assert_eq!(options.find_java(&e, never), Some(String::from("/opt/jdk/bin/java")));
    e.java_cmd = Some(String::from("/custom/bin/myjava"));
    assert_eq!(options.find_java(&e, never), Some(String::from("/custom/bin/myjava")));
}

#[test]
fn determine_java_location_takes_up_the_runtime() {
    let mut e = env();
    e.java_home = Some(String::from("/opt/java"));
    let mut options = LaunchOptions::default();
    options.fork_java = true;
    options
        .determine_java_location(
            &e,
            |p: &String| p == "/opt/java/release",
            |p: &String| {
                if p == "/opt/java/release" {
                    Some(String::from("JAVA_VERSION=\"23.0.1\"\n"))
                } else {
                    None
                }
            },
            |p: &String| {
                if p == "/opt/java/lib/server" {
                    Listing::Entries(vec![String::from("/opt/java/lib/server/classes.jsa")])
                } else {
                    Listing::NoDirectory
                }
            },
        )
        .unwrap();
    assert!(options.fork_java);
    assert_eq!(options.runtime.java_location, Some(String::from("/opt/java/bin/java")));
    assert_eq!(options.runtime.java_home, Some(String::from("/opt/java")));
    assert_eq!(options.runtime.java_version, "23.0.1");
    assert_eq!(options.runtime.java_major_version, 23);
    assert!(options.runtime.java_is_modular);
    assert!(options.runtime.java_has_appcds);
    assert!(options.runtime.use_appcds);
    assert!(options.cache.use_jsa_file);
    assert!(options.runtime.appcds_autogenerate);
    assert!(options.runtime.native_access);
    assert!(options.runtime.unsafe_memory);
}

#[test]
fn determine_java_location_fails_without_java() {
    let e = env();
    let mut options = LaunchOptions::default();
    let err = options
        .determine_java_location(
            &e,
            |_p: &String| false,
            |_p: &String| None,
            |_p: &String| Listing::NoDirectory,
        )
        .unwrap_err();
    assert_eq!(err.kind, LaunchErrorKind::RuntimeVersionUnresolvable);
    assert_eq!(options.runtime.java_location, None);
    let mut e = env();
    e.java_cmd = Some(String::from("java"));
    let err = options
        .determine_java_location(
            &e,
            |_p: &String| true,
            |_p: &String| Some(String::from(RELEASE)),
            |_p: &String| Listing::NoDirectory,
        )
        .unwrap_err();
    assert_eq!(err.kind, LaunchErrorKind::RuntimeVersionUnresolvable);
    assert_eq!(err.message(), "unable to determine the Java version");
}

#[test]
fn supports_goes_by_the_table() {
    assert!(!supports(18, Capability::AutoCreateArchive));
    assert!(supports(19, Capability::AutoCreateArchive));
    assert!(!supports(21, Capability::NativeAccess));
    assert!(supports(22, Capability::NativeAccess));
    assert!(!supports(22, Capability::UnsafeMemoryAccess));
    assert!(supports(23, Capability::UnsafeMemoryAccess));
    assert!(supports(65535, Capability::UnsafeMemoryAccess));
    assert!(!supports(0, Capability::AutoCreateArchive));
}

#[test]
fn an_unreadable_server_directory_is_an_error() {
    let err = probe_runtime(
        Some(String::from("/opt/java/bin/java")),
        String::from("/opt/java"),
        &facts(RELEASE, Listing::Unreadable),
    )
    .unwrap_err();
    assert_eq!(err.kind, LaunchErrorKind::DirectoryUnreadable);
    assert_eq!(err.message(), "unable to read a directory");
    let err = probe_runtime(None, String::from("/opt/java"), &facts("x", Listing::Unreadable))
        .unwrap_err();
    assert_eq!(err.kind, LaunchErrorKind::RuntimeVersionUnresolvable);
    let mut e = env();
    e.java_home = Some(String::from("/opt/java"));
    let mut options = LaunchOptions::default();
    let err = options
        .determine_java_location(
            &e,
            |_p: &String| true,
            |_p: &String| Some(String::from(RELEASE)),
            |_p: &String| Listing::Unreadable,
        )
        .unwrap_err();
    assert_eq!(err.kind, LaunchErrorKind::DirectoryUnreadable);
    assert_eq!(options.runtime.java_location, None);
}

#[test]
fn nocache_keeps_archives_out_of_use() {
    let mut e = env();
    e.args = vec![String::from("jruby"), String::from("--nocache")];
    e.java_home = Some(String::from("/opt/java"));
    let mut options = LaunchOptions::default();
    options.parse(&e).unwrap();
    options
        .determine_java_location(
            &e,
            |_p: &String| true,
            |_p: &String| Some(String::from(RELEASE)),
            |_p: &String| Listing::Entries(vec![String::from("classes.jsa")]),
        )
        .unwrap();
    assert!(options.runtime.java_has_appcds);
    assert!(options.runtime.use_appcds);
    assert!(!options.cache.use_jsa_file);
}

#[test]
fn the_runtime_on_windows() {
    let mut e = env();
    e.platform = Platform::Windows;
    e.path = Some(String::from("C:\\windows;C:\\java\\bin"));
    let mut options = LaunchOptions::default();
    assert_eq!(
        options.find_java(&e, |p: &String| p == "C:\\java\\bin\\java.exe"),
        Some(String::from("C:\\java\\bin\\java.exe"))
    );
    options
        .determine_java_location(
            &e,
            |p: &String| p == "C:\\java\\bin\\java.exe" || p == "C:\\java\\release",
            |p: &String| {
                if p == "C:\\java\\release" {
                    Some(String::from(RELEASE))
                } else {
                    None
                }
            },
            |p: &String| {
                if p == "C:\\java\\bin\\server" {
                    Listing::Entries(vec![String::from("C:\\java\\bin\\server\\classes.jsa")])
                } else {
                    Listing::NoDirectory
                }
            },
        )
        .unwrap();
    assert_eq!(options.runtime.java_home, Some(String::from("C:\\java")));
    assert!(options.runtime.java_has_appcds);
    assert!(options.runtime.java_is_modular);
}
