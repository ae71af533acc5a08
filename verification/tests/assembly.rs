use jruby_launcher::assembly::{survey_home, HomeFacts};
use jruby_launcher::disk::Listing;
use jruby_launcher::launch_options::Warning;
use jruby_launcher::paths::Platform;
use jruby_launcher::environment::Environment;
use jruby_launcher::launch_options::{LaunchErrorKind, LaunchOptions};

fn strings(items: &[&str]) -> Vec<String> {
    items.iter().map(|s| s.to_string()).collect()
}

fn env() -> Environment {
    let mut env = Environment::empty();
    env.args = vec![String::from("jruby")];
    env
}

fn options() -> LaunchOptions {
    let mut options = LaunchOptions::default();
    options.jruby_home = Some(String::from("/opt/jruby"));
    options.runtime.java_home = Some(String::from("/opt/java"));
    options.runtime.java_location = Some(String::from("/opt/java/bin/java"));
    options.runtime.java_version = String::from("17.0.2");
    options.runtime.java_major_version = 17;
    options
}

fn facts() -> HomeFacts {
    HomeFacts {
        jni_present: true,
        native_present: false,
        jruby_jar_present: true,
        complete_jar_present: false,
        lib_entries: Listing::Entries(strings(&[
            "/opt/jruby/lib/jruby.jar",
            "/opt/jruby/lib/ruby",
            "/opt/jruby/lib/extra.jar",
            "/opt/jruby/lib/notes.txt",
        ])),
        module_opts_present: false,
        jar_newer: false,
    }
}

const HEAD: [&str; 6] = [
    "-Djruby.home=/opt/jruby",
    "-Djruby.script=jruby",
    "-Djruby.shell=/bin/sh",
    "-Djffi.boot.library.path=/opt/jruby/lib/jni",
    "-Xss2048k",
    "-Dsun.java.command=org.jruby.Main",
];

const ADD_OPENS: [&str; 8] = [
    "--add-opens",
    "java.base/java.io=org.jruby.dist",
    "--add-opens",
    "java.base/java.nio.channels=org.jruby.dist",
    "--add-opens",
    "java.base/sun.nio.ch=org.jruby.dist",
    "--add-opens",
    "java.management/sun.management=org.jruby.dist",
];

fn expect(parts: &[&[&str]]) -> Vec<String> {
    parts.iter().flat_map(|p| p.iter().map(|s| s.to_string())).collect()
}

#[test]
fn assemble_a_plain_launch() {
    let mut o = options();
    o.assemble(&env(), &facts()).unwrap();
    assert_eq!(
        o.java_opts,
        expect(&[
            &HEAD,
            &["-Xbootclasspath/a:/opt/jruby/lib/jruby.jar"],
            &["-Djava.class.path=/opt/jruby/lib/jruby.jar:/opt/jruby/lib/extra.jar:"],
        ])
    );
    assert_eq!(o.boot_classpath, strings(&["/opt/jruby/lib/jruby.jar"]));
    assert_eq!(o.classpath, strings(&["/opt/jruby/lib/jruby.jar", "/opt/jruby/lib/extra.jar", ""]));
    assert_eq!(o.boot_class, Some(String::from("org/jruby/Main")));
    assert_eq!(o.cache.jruby_jsa_file, Some(String::from("/opt/jruby/lib/jruby-java17.0.2.jsa")));
    assert_eq!(
        o.command_line(),
        expect(&[
            &HEAD,
            &["-Xbootclasspath/a:/opt/jruby/lib/jruby.jar"],
            &["-Djava.class.path=/opt/jruby/lib/jruby.jar:/opt/jruby/lib/extra.jar:"],
            &["org/jruby/Main"],
        ])
    );
}

#[test]
fn assemble_keeps_flags_from_the_environment_first() {
    let mut o = options();
    o.java_opts = strings(&["-Xmx1g"]);
    o.jdk_home = Some(String::from("/opt/jdk"));
    o.xss = Some(String::from("-Xxss1m"));
    o.boot_class = Some(String::from("my/own/Main"));
    o.program_args = strings(&["script.rb", "arg"]);
    o.assemble(&env(), &facts()).unwrap();
    assert_eq!(
        o.java_opts,
        strings(&[
            "-Xmx1g",
            "-Djdk.home=/opt/jdk",
            "-Djruby.home=/opt/jruby",
            "-Djruby.script=jruby",
            "-Djruby.shell=/bin/sh",
            "-Djffi.boot.library.path=/opt/jruby/lib/jni",
            "-Dsun.java.command=my.own.Main",
            "-Xbootclasspath/a:/opt/jruby/lib/jruby.jar",
            "-Djava.class.path=/opt/jruby/lib/jruby.jar:/opt/jruby/lib/extra.jar:",
        ])
    );
    let line = o.command_line();
    assert_eq!(line[line.len() - 3..], strings(&["my/own/Main", "script.rb", "arg"]));
}

#[test]
fn assemble_explicit_class_path_ignores_the_environment() {
    let mut e = env();
    e.classpath = Some(String::from("/ambient/one:/ambient/two"));
    let mut ambient = options();
    ambient.assemble(&e, &facts()).unwrap();
    assert_eq!(
        ambient.classpath,
        strings(&[
            "/opt/jruby/lib/jruby.jar",
            "/opt/jruby/lib/extra.jar",
            "/ambient/one",
            "/ambient/two",
            "",
        ])
    );
    let mut explicit = options();
    explicit.classpath_explicit = strings(&["/explicit"]);
    explicit.classpath_after = strings(&["/after"]);
    explicit.classpath_before = strings(&["/before"]);
    explicit.assemble(&e, &facts()).unwrap();
    let expected =
        strings(&["/opt/jruby/lib/jruby.jar", "/opt/jruby/lib/extra.jar", "/explicit", "/after", ""]);
    assert_eq!(explicit.classpath, expected);
    let mut other = options();
    other.classpath_explicit = strings(&["/explicit"]);
    other.classpath_after = strings(&["/after"]);
    other.assemble(&env(), &facts()).unwrap();
    assert_eq!(other.classpath, expected);
    assert_eq!(other.java_opts, explicit.java_opts);
    assert_eq!(
        explicit.java_opts.last().unwrap(),
        "-Djava.class.path=/opt/jruby/lib/jruby.jar:/opt/jruby/lib/extra.jar:/explicit:/after:"
    );
}

#[test]
fn assemble_needs_a_home() {
    let mut o = options();
    o.jruby_home = None;
    let err = o.assemble(&env(), &facts()).unwrap_err();
    assert_eq!(err.kind, LaunchErrorKind::HomeNotFound);
    assert!(o.java_opts.is_empty());
}

#[test]
fn assemble_needs_native_libraries() {
    let mut f = facts();
    f.jni_present = false;
    let mut o = options();
    let err = o.assemble(&env(), &f).unwrap_err();
    assert_eq!(err.kind, LaunchErrorKind::JniDirNotFound);
    assert_eq!(err.message(), "unable to find the JNI library directory");
    assert!(o.java_opts.is_empty());
    assert!(o.classpath.is_empty());
    f.native_present = true;
    o.assemble(&env(), &f).unwrap();
    assert_eq!(o.java_opts[3], "-Djffi.boot.library.path=/opt/jruby/lib/native");
}

#[test]
fn assemble_refuses_entries_with_the_separator() {
    let mut o = options();
    o.classpath_after = strings(&["/a:/b"]);
    let err = o.assemble(&env(), &facts()).unwrap_err();
    assert_eq!(err.kind, LaunchErrorKind::ClassPathNotJoinable);
    assert_eq!(err.message(), "path segment contains separator");
    assert!(o.java_opts.is_empty());
    assert_eq!(
        o.classpath,
        strings(&["/opt/jruby/lib/jruby.jar", "/opt/jruby/lib/extra.jar", "/a:/b", ""])
    );
    let mut o = options();
    o.jruby_home = Some(String::from("/opt/j:ruby"));
    let mut f = facts();
    f.lib_entries = Listing::NoDirectory;
    let err = o.assemble(&env(), &f).unwrap_err();
    assert_eq!(err.kind, LaunchErrorKind::ClassPathNotJoinable);
    assert_eq!(o.boot_classpath, strings(&["/opt/j:ruby/lib/jruby.jar"]));
}

#[test]
fn assemble_prefers_the_plain_archive() {
    let mut f = facts();
    f.complete_jar_present = true;
    let mut o = options();
    o.assemble(&env(), &f).unwrap();
    assert_eq!(o.boot_classpath, strings(&["/opt/jruby/lib/jruby.jar"]));
    f.jruby_jar_present = false;
    let mut o = options();
    o.assemble(&env(), &f).unwrap();
    assert_eq!(o.boot_classpath, strings(&["/opt/jruby/lib/jruby-complete.jar"]));
}

#[test]
fn assemble_goes_on_without_an_archive() {
    let mut f = facts();
    f.jruby_jar_present = false;
    f.lib_entries = Listing::Entries(vec![]);
    let mut o = options();
    o.assemble(&env(), &f).unwrap();
    assert!(o.boot_classpath.is_empty());
    assert!(o.classpath.is_empty());
    assert_eq!(o.java_opts, expect(&[&HEAD, &["-Djava.class.path="]]));
}

#[test]
fn assemble_without_boot_class_path_uses_the_class_path() {
    let mut o = options();
    o.no_boot_classpath = true;
    o.assemble(&env(), &facts()).unwrap();
    assert!(o.boot_classpath.is_empty());
    assert_eq!(
        o.classpath,
        strings(&[
            "/opt/jruby/lib/jruby.jar",
            "/opt/jruby/lib/jruby.jar",
            "/opt/jruby/lib/extra.jar",
            "",
        ])
    );
    assert_eq!(
        o.java_opts,
        expect(&[
            &HEAD,
            &["-Djava.class.path=/opt/jruby/lib/jruby.jar:/opt/jruby/lib/jruby.jar:/opt/jruby/lib/extra.jar:"],
        ])
    );
}

#[test]
fn assemble_forked_hands_the_class_path_as_an_option() {
    let mut o = options();
    o.fork_java = true;
    o.assemble(&env(), &facts()).unwrap();
    let n = o.java_opts.len();
    assert_eq!(
        o.java_opts[n - 2..],
        strings(&["-cp", "/opt/jruby/lib/jruby.jar:/opt/jruby/lib/extra.jar:"])
    );
}

#[test]
fn assemble_modular_with_fixed_openings() {
    let mut o = options();
    o.runtime.java_is_modular = true;
    o.assemble(&env(), &facts()).unwrap();
    assert_eq!(
        o.java_opts,
        expect(&[
            &HEAD,
            &["--module-path=/opt/jruby/lib/jruby.jar"],
            &ADD_OPENS,
            &["-Djava.class.path=/opt/jruby/lib/jruby.jar:/opt/jruby/lib/extra.jar:"],
        ])
    );
}

#[test]
fn assemble_modular_with_options_file() {
    let mut o = options();
    o.runtime.java_is_modular = true;
    let mut f = facts();
    f.module_opts_present = true;
    o.assemble(&env(), &f).unwrap();
    assert_eq!(
        o.java_opts,
        expect(&[
            &HEAD,
            &["--module-path=/opt/jruby/lib/jruby.jar"],
            &["@/opt/jruby/bin/.jruby.module_opts"],
            &["-Djava.class.path=/opt/jruby/lib/jruby.jar:/opt/jruby/lib/extra.jar:"],
        ])
    );
}

fn archive_flags(o: &LaunchOptions) -> Vec<String> {
    o.java_opts[7..o.java_opts.len() - 1].to_vec()
}

#[test]
fn assemble_uses_the_archive_that_is_there() {
    let mut o = options();
    o.cache.use_jsa_file = true;
    o.assemble(&env(), &facts()).unwrap();
    assert_eq!(
        archive_flags(&o),
        strings(&[
            "-XX:SharedArchiveFile=/opt/jruby/lib/jruby-java17.0.2.jsa",
            "-Xlog:cds=off",
            "-Xlog:cds+dynamic=off",
        ])
    );
    assert!(!o.cache.regenerate_jsa_file);
}

#[test]
fn assemble_writes_a_stale_archive_anew() {
    let mut f = facts();
    f.jar_newer = true;
    let mut o = options();
    o.cache.use_jsa_file = true;
    o.cache.regenerate_jsa_file = true;
    o.cache.log_cds = true;
    let mut e = env();
    e.jruby_jsa_file = Some(String::from("/tmp/my.jsa"));
    o.assemble(&e, &f).unwrap();
    assert_eq!(
        archive_flags(&o),
        strings(&[
            "-XX:ArchiveClassesAtExit=/tmp/my.jsa",
            "-Xlog:cds=info:file=/tmp/my.jsa",
            "-Xlog:cds+dynamic=info:file=/tmp/my.jsa",
        ])
    );
    assert!(o.cache.regenerate_jsa_file);
    assert_eq!(o.cache.jruby_jsa_file, Some(String::from("/tmp/my.jsa")));
}

#[test]
fn assemble_writes_an_archive_anew_on_request() {
    let mut o = options();
    o.cache.use_jsa_file = true;
    o.cache.regenerate_jsa_file = true;
    o.assemble(&env(), &facts()).unwrap();
    assert_eq!(
        archive_flags(&o)[0],
        "-XX:ArchiveClassesAtExit=/opt/jruby/lib/jruby-java17.0.2.jsa"
    );
    assert!(o.cache.regenerate_jsa_file);
}

#[test]
fn assemble_writes_a_stale_archive_anew_unasked() {
    let mut f = facts();
    f.jar_newer = true;
    let mut o = options();
    o.cache.use_jsa_file = true;
    o.assemble(&env(), &f).unwrap();
    assert_eq!(
        archive_flags(&o)[0],
        "-XX:ArchiveClassesAtExit=/opt/jruby/lib/jruby-java17.0.2.jsa"
    );
    assert!(o.cache.regenerate_jsa_file);
}

#[test]
fn assemble_lets_the_runtime_create_the_archive() {
    let mut f = facts();
    f.jar_newer = true;
    let mut o = options();
    o.cache.use_jsa_file = true;
    o.cache.regenerate_jsa_file = true;
    o.runtime.appcds_autogenerate = true;
    o.assemble(&env(), &f).unwrap();
    assert_eq!(
        archive_flags(&o),
        strings(&["-XX:+AutoCreateSharedArchive", "-Xlog:cds=off", "-Xlog:cds+dynamic=off"])
    );
}

#[test]
fn assemble_without_archives_leaves_the_request() {
    let mut f = facts();
    f.jar_newer = true;
    let mut o = options();
    o.cache.regenerate_jsa_file = true;
    o.assemble(&env(), &f).unwrap();
    assert!(archive_flags(&o).is_empty());
    assert!(o.cache.regenerate_jsa_file);
    let mut o = options();
    o.assemble(&env(), &f).unwrap();
    assert!(archive_flags(&o).is_empty());
    assert!(!o.cache.regenerate_jsa_file);
}

#[test]
fn assemble_flags_for_newer_runtimes() {
    let mut o = options();
    o.runtime.native_access = true;
    o.runtime.unsafe_memory = true;
    o.assemble(&env(), &facts()).unwrap();
    assert_eq!(
        archive_flags(&o),
        strings(&["--enable-native-access=org.jruby.dist", "--sun-misc-unsafe-memory-access=allow"])
    );
    let mut o = options();
    o.runtime.unsafe_memory = true;
    o.assemble(&env(), &facts()).unwrap();
    assert_eq!(archive_flags(&o), strings(&["--sun-misc-unsafe-memory-access=allow"]));
}

#[test]
fn class_path_helpers_skip_what_is_there() {
    let mut o = options();
    o.add_to_class_path(String::from("/a.jar"), false, false);
    o.add_to_class_path(String::from("/a.jar"), false, true);
    o.add_to_class_path(String::from("/missing.jar"), true, false);
    assert_eq!(o.classpath, strings(&["/a.jar"]));
    o.add_to_boot_class_path(String::from("/b.jar"), true, true);
    o.add_to_boot_class_path(String::from("/b.jar"), true, true);
    o.add_to_boot_class_path(String::from("/gone.jar"), true, false);
    assert_eq!(o.boot_classpath, strings(&["/b.jar"]));
    o.add_to_class_path(String::from("/b.jar"), false, true);
    assert_eq!(o.classpath, strings(&["/a.jar"]));
    o.no_boot_classpath = true;
    o.add_to_boot_class_path(String::from("/c.jar"), false, false);
    assert_eq!(o.boot_classpath, strings(&["/b.jar"]));
    assert_eq!(o.classpath, strings(&["/a.jar", "/c.jar"]));
    o.add_jars_to_classpath(&Listing::Entries(strings(&["/x.jar", "/y.txt", "/a.jar", ".jar"])));
    assert_eq!(o.classpath, strings(&["/a.jar", "/c.jar", "/x.jar", "/a.jar", ".jar"]));
    o.add_jars_to_classpath(&Listing::NoDirectory);
    assert_eq!(o.classpath.len(), 5);
}

#[test]
fn home_directories_are_built_from_the_home() {
    let o = options();
    assert_eq!(o.jruby_home(Platform::Posix, vec!["lib", "jni"]), Some(String::from("/opt/jruby/lib/jni")));
    assert_eq!(o.java_home(Platform::Posix, vec!["release"]), Some(String::from("/opt/java/release")));
    assert_eq!(LaunchOptions::default().jruby_home(Platform::Posix, vec!["lib"]), None);
    assert_eq!(LaunchOptions::default().java_home(Platform::Posix, vec!["lib"]), None);
}

#[test]
fn survey_home_asks_the_right_paths() {
    let mut o = options();
    o.cache.use_jsa_file = true;
    o.cache.regenerate_jsa_file = true;
    let facts = survey_home(
        &o,
        &env(),
        "/opt/jruby",
        |p: &String| p == "/opt/jruby/lib/native" || p == "/opt/jruby/lib/jruby-complete.jar",
        |p: &String| {
            if p == "/opt/jruby/lib" {
                Listing::Entries(vec![String::from("x")])
            } else {
                Listing::NoDirectory
            }
        },
        |a: &String, b: &String| {
            a == "/opt/jruby/lib/jruby.jar" && b == "/opt/jruby/lib/jruby-java17.0.2.jsa"
        },
    );
    assert!(!facts.jni_present);
    assert!(facts.native_present);
    assert!(!facts.jruby_jar_present);
    assert!(facts.complete_jar_present);
    assert!(matches!(&facts.lib_entries, Listing::Entries(e) if e == &vec![String::from("x")]));
    assert!(!facts.module_opts_present);
    assert!(facts.jar_newer);
    o.cache.use_jsa_file = false;
    let facts = survey_home(
        &o,
        &env(),
        "/opt/jruby",
        |p: &String| p == "/opt/jruby/lib/jni" || p == "/opt/jruby/bin/.jruby.module_opts",
        |_p: &String| Listing::NoDirectory,
        |_a: &String, _b: &String| panic!("no archive is compared"),
    );
    assert!(facts.jni_present);
    assert!(facts.module_opts_present);
    assert!(!facts.jar_newer);
}

#[test]
fn prepare_options_looks_and_assembles() {
    let mut o = options();
    o.prepare_options(
        &env(),
        |p: &String| p == "/opt/jruby/lib/jni" || p == "/opt/jruby/lib/jruby.jar",
        |p: &String| {
            if p == "/opt/jruby/lib" {
                Listing::Entries(vec![String::from("/opt/jruby/lib/jruby.jar")])
            } else {
                Listing::NoDirectory
            }
        },
        |_a: &String, _b: &String| false,
    )
    .unwrap();
    assert_eq!(
        o.java_opts,
        expect(&[
            &HEAD,
            &["-Xbootclasspath/a:/opt/jruby/lib/jruby.jar"],
            &["-Djava.class.path=/opt/jruby/lib/jruby.jar:"],
        ])
    );
    let mut none = LaunchOptions::default();
    let err = none
        .prepare_options(
            &env(),
            |_p: &String| panic!("nothing is looked at"),
            |_p: &String| panic!("nothing is listed"),
            |_a: &String, _b: &String| panic!("nothing is compared"),
        )
        .unwrap_err();
    assert_eq!(err.kind, LaunchErrorKind::HomeNotFound);
}

#[test]
fn an_unreadable_lib_directory_is_an_error() {
    let mut f = facts();
    f.lib_entries = Listing::Unreadable;
    let mut o = options();
    let err = o.assemble(&env(), &f).unwrap_err();
    assert_eq!(err.kind, LaunchErrorKind::DirectoryUnreadable);
    assert!(o.java_opts.is_empty());
    assert!(o.classpath.is_empty());
    assert!(o.boot_classpath.is_empty());
    assert!(o.warnings.is_empty());
    f.jni_present = false;
    let err = o.assemble(&env(), &f).unwrap_err();
    assert_eq!(err.kind, LaunchErrorKind::JniDirNotFound);
}

#[test]
fn a_missing_lib_directory_is_a_warning() {
    let mut f = facts();
    f.lib_entries = Listing::NoDirectory;
    let mut o = options();
    o.assemble(&env(), &f).unwrap();
    assert_eq!(o.warnings, vec![Warning::LibraryMissing]);
    assert!(o.classpath.is_empty());
    assert_eq!(Warning::LibraryMissing.message(), "The lib directory is not a directory...skipping!");
}

#[test]
fn archives_that_are_amiss_are_warnings() {
    let o = options();
    assert!(o.home_warnings(Platform::Posix, "/opt/jruby", &facts()).is_empty());
    let mut both = facts();
    both.complete_jar_present = true;
    assert_eq!(o.home_warnings(Platform::Posix, "/opt/jruby", &both), vec![Warning::ArchiveConflict]);
    let mut none = facts();
    none.jruby_jar_present = false;
    assert_eq!(o.home_warnings(Platform::Posix, "/opt/jruby", &none), vec![Warning::ArchiveMissing]);
    let mut placed = options();
    placed.boot_classpath = strings(&["/opt/jruby/lib/jruby.jar"]);
    assert_eq!(
        placed.home_warnings(Platform::Posix, "/opt/jruby", &both),
        vec![Warning::ArchiveConflict, Warning::ArchiveAlreadyPlaced]
    );
    let mut on_class_path = options();
    on_class_path.classpath = strings(&["/opt/jruby/lib/jruby.jar"]);
    assert!(on_class_path.home_warnings(Platform::Posix, "/opt/jruby", &facts()).is_empty());
    on_class_path.no_boot_classpath = true;
    assert_eq!(
        on_class_path.home_warnings(Platform::Posix, "/opt/jruby", &facts()),
        vec![Warning::ArchiveAlreadyPlaced]
    );
    let mut o = options();
    o.warnings = vec![Warning::ArchiveMissing];
    o.assemble(&env(), &both).unwrap();
    assert_eq!(o.warnings, vec![Warning::ArchiveMissing, Warning::ArchiveConflict]);
    assert_eq!(
        Warning::ArchiveConflict.message(),
        "Both jruby.jar and jruby-complete.jar are present.  Using jruby.jar"
    );
    assert_eq!(Warning::ArchiveMissing.message(), "No jruby.jar or jruby-complete.jar found.");
}

#[test]
fn assemble_on_windows() {
    let mut e = env();
    e.platform = Platform::Windows;
    e.classpath = Some(String::from("D:\\one;D:\\two"));
    let mut o = LaunchOptions::default();
    o.jruby_home = Some(String::from("C:\\jruby"));
    o.runtime.java_version = String::from("17.0.2");
    let f = HomeFacts {
        jni_present: true,
        native_present: false,
        jruby_jar_present: true,
        complete_jar_present: false,
        lib_entries: Listing::Entries(strings(&["C:\\jruby\\lib\\jruby.jar"])),
        module_opts_present: false,
        jar_newer: false,
    };
    o.assemble(&e, &f).unwrap();
    assert_eq!(
        o.java_opts,
        strings(&[
            "-Djruby.home=C:\\jruby",
            "-Djruby.script=jruby",
            "-Djruby.shell=cmd.exe",
            "-Djffi.boot.library.path=C:\\jruby\\lib\\jni",
            "-Xss2048k",
            "-Dsun.java.command=org.jruby.Main",
            "-Xbootclasspath/a:C:\\jruby\\lib\\jruby.jar",
            "-Djava.class.path=C:\\jruby\\lib\\jruby.jar;D:\\one;D:\\two;",
        ])
    );
    assert_eq!(
        o.cache.jruby_jsa_file,
        Some(String::from("C:\\jruby\\lib\\jruby-java17.0.2.jsa"))
    );
}
