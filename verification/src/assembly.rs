//! The assembly of the final flag list: class path, boot class path or
//! module path, shared-class archive and the flags that depend on the
//! version of the runtime.

use vstd::prelude::*;
use crate::disk::{
    comparable, list_answered, listable_by, newer_answered, surveys, Disk, Listing, ListingView,
};
use crate::environment::Environment;
use crate::file_helper::{answered, total};
use crate::launch_options::{
    CacheOptionsView, LaunchError, LaunchErrorKind, LaunchOptions, LaunchOptionsView, Warning,
    java_name, java_name_of, shell, shell_of, MAIN_CLASS, XSS_DEFAULT_OPT,
};
use crate::os_string_ext::{char_replaced, OsStringExt};
use crate::paths::{
    join, join_paths, joined, listable, listed, path_list, split_paths, Platform,
};
use crate::text::{
    concat, copy_texts, ends_with, extend_texts, has_suffix, has_text, lemma_texts_empty,
    lemma_texts_push, opt_text, push_text, texts,
};

verus! {

/// The file name ending of a Java archive.
pub const JAR_SUFFIX: &'static str = ".jar";

/// What was seen of an installation home.
pub struct HomeFacts {
    /// Whether `lib/jni` exists.
    pub jni_present: bool,
    /// Whether `lib/native` exists.
    pub native_present: bool,
    /// Whether `lib/jruby.jar` exists.
    pub jruby_jar_present: bool,
    /// Whether `lib/jruby-complete.jar` exists.
    pub complete_jar_present: bool,
    /// What listing `lib` gave.
    pub lib_entries: Listing,
    /// Whether `bin/.jruby.module_opts` exists.
    pub module_opts_present: bool,
    /// Whether `lib/jruby.jar` was modified later than the shared-class
    /// archive that is there. It is looked at only where archive files are
    /// in use.
    pub jar_newer: bool,
}

/// What a `HomeFacts` holds, as plain mathematical values.
pub struct HomeFactsView {
    pub jni_present: bool,
    pub native_present: bool,
    pub jruby_jar_present: bool,
    pub complete_jar_present: bool,
    pub lib_entries: ListingView,
    pub module_opts_present: bool,
    pub jar_newer: bool,
}

impl View for HomeFacts {
    type V = HomeFactsView;

    open spec fn view(&self) -> HomeFactsView {
        HomeFactsView {
            jni_present: self.jni_present,
            native_present: self.native_present,
            jruby_jar_present: self.jruby_jar_present,
            complete_jar_present: self.complete_jar_present,
            lib_entries: self.lib_entries@,
            module_opts_present: self.module_opts_present,
            jar_newer: self.jar_newer,
        }
    }
}

/// The directory of the libraries of the installation.
pub open spec fn lib_dir(platform: Platform, home: Seq<char>) -> Seq<char> {
    joined(platform, home, "lib"@)
}

/// The directory of the native libraries.
pub open spec fn jni_dir(platform: Platform, home: Seq<char>) -> Seq<char> {
    joined(platform, lib_dir(platform, home), "jni"@)
}

/// The directory of the native libraries in older installations.
pub open spec fn native_dir(platform: Platform, home: Seq<char>) -> Seq<char> {
    joined(platform, lib_dir(platform, home), "native"@)
}

/// The runtime archive.
pub open spec fn jruby_jar(platform: Platform, home: Seq<char>) -> Seq<char> {
    joined(platform, lib_dir(platform, home), "jruby.jar"@)
}

/// The runtime archive that holds everything in one file.
pub open spec fn complete_jar(platform: Platform, home: Seq<char>) -> Seq<char> {
    joined(platform, lib_dir(platform, home), "jruby-complete.jar"@)
}

/// The file of module options.
pub open spec fn module_opts_file(platform: Platform, home: Seq<char>) -> Seq<char> {
    joined(platform, joined(platform, home, "bin"@), ".jruby.module_opts"@)
}

/// The shared-class archive for the runtime version `version`.
pub open spec fn default_archive(
    platform: Platform,
    home: Seq<char>,
    version: Seq<char>,
) -> Seq<char> {
    joined(platform, lib_dir(platform, home), "jruby-java"@ + version + ".jsa"@)
}

/// The shared-class archive of this launch: the one that the environment
/// names, else the one for the runtime's version.
pub open spec fn archive_file(
    platform: Platform,
    named: Option<Seq<char>>,
    home: Seq<char>,
    version: Seq<char>,
)
    -> Seq<char> {
    match named {
        Some(file) => file,
        None => default_archive(platform, home, version),
    }
}

/// The shared-class archive of the launch with the options `o` in the
/// environment `env`.
pub open spec fn archive_of(o: LaunchOptionsView, env: Environment, home: Seq<char>) -> Seq<char> {
    archive_file(env.platform, opt_text(env.jruby_jsa_file), home, o.runtime.java_version)
}

/// What `disk` shows of the installation home of `o`. The two archives are
/// compared only where archive files are in use.
pub open spec fn home_facts(o: LaunchOptionsView, env: Environment, home: Seq<char>, disk: Disk)
    -> HomeFactsView {
    HomeFactsView {
        jni_present: (disk.present)(jni_dir(env.platform, home)),
        native_present: (disk.present)(native_dir(env.platform, home)),
        jruby_jar_present: (disk.present)(jruby_jar(env.platform, home)),
        complete_jar_present: (disk.present)(complete_jar(env.platform, home)),
        lib_entries: (disk.entries)(lib_dir(env.platform, home)),
        module_opts_present: (disk.present)(module_opts_file(env.platform, home)),
        jar_newer: o.cache.use_jsa_file && (disk.newer)(
            jruby_jar(env.platform, home),
            archive_of(o, env, home),
        ),
    }
}

/// `list` with `flag` at its end where `wanted` holds.
pub open spec fn with_flag_if(list: Seq<Seq<char>>, wanted: bool, flag: Seq<char>) -> Seq<
    Seq<char>,
> {
    if wanted {
        list.push(flag)
    } else {
        list
    }
}

/// The flags that say who is launched: the JDK asked for, the home, the
/// name of the script and the shell.
pub open spec fn identity_flags(
    platform: Platform,
    jdk_home: Option<Seq<char>>,
    home: Seq<char>,
) -> Seq<Seq<char>> {
    let jdk: Seq<Seq<char>> = match jdk_home {
        Some(jdk_home) => seq!["-Djdk.home="@ + jdk_home],
        None => Seq::empty(),
    };
    jdk + seq!["-Djruby.home="@ + home, "-Djruby.script=jruby"@, shell_of(platform)]
}

/// The directory of native libraries that is there: `lib/jni`, else
/// `lib/native`.
pub open spec fn library_dir(
    platform: Platform,
    home: Seq<char>,
    facts: HomeFactsView,
) -> Option<Seq<char>> {
    if facts.jni_present {
        Some(jni_dir(platform, home))
    } else if facts.native_present {
        Some(native_dir(platform, home))
    } else {
        None
    }
}

/// The options after `path` was offered to the class path: it is added at
/// the end unless it is asked for only if it exists and does not, or is on
/// the class path or the boot class path already.
pub open spec fn added_to_class_path(
    o: LaunchOptionsView,
    path: Seq<char>,
    only_if_exists: bool,
    present: bool,
) -> LaunchOptionsView {
    if (only_if_exists && !present) || o.classpath.contains(path) || o.boot_classpath.contains(
        path,
    ) {
        o
    } else {
        LaunchOptionsView { classpath: o.classpath.push(path), ..o }
    }
}

/// The options after `path` was offered to the boot class path. Where the
/// boot class path is switched off the path is offered to the class path
/// instead.
pub open spec fn added_to_boot_class_path(
    o: LaunchOptionsView,
    path: Seq<char>,
    only_if_exists: bool,
    present: bool,
) -> LaunchOptionsView {
    if o.no_boot_classpath {
        added_to_class_path(o, path, only_if_exists, present)
    } else if (only_if_exists && !present) || o.boot_classpath.contains(path) {
        o
    } else {
        LaunchOptionsView { boot_classpath: o.boot_classpath.push(path), ..o }
    }
}

/// The options after the runtime archive that is there was offered to the
/// boot class path.
pub open spec fn with_boot_jar(
    platform: Platform,
    o: LaunchOptionsView,
    home: Seq<char>,
    facts: HomeFactsView,
)
    -> LaunchOptionsView {
    if facts.jruby_jar_present {
        added_to_boot_class_path(o, jruby_jar(platform, home), true, true)
    } else if facts.complete_jar_present {
        added_to_boot_class_path(o, complete_jar(platform, home), false, true)
    } else {
        o
    }
}

/// Whether `path` is already on the class path that the runtime archive
/// is offered to: the boot class path, or, where that is switched off, the
/// class path or the boot class path.
pub open spec fn already_placed(o: LaunchOptionsView, path: Seq<char>) -> bool {
    o.boot_classpath.contains(path) || (o.no_boot_classpath && o.classpath.contains(path))
}

/// `list` with `warning` at its end where `due` holds.
pub open spec fn with_warning_if(list: Seq<Warning>, due: bool, warning: Warning) -> Seq<Warning> {
    if due {
        list.push(warning)
    } else {
        list
    }
}

/// What is amiss, without being an error, in an installation of which
/// `facts` were seen: both runtime archives are there, or none is; the
/// runtime archive that is used is on its class path already; `lib` is no
/// directory. In this order.
pub open spec fn warnings_of(
    platform: Platform,
    o: LaunchOptionsView,
    home: Seq<char>,
    facts: HomeFactsView,
) -> Seq<
    Warning,
> {
    let plain = facts.jruby_jar_present;
    let complete = facts.complete_jar_present;
    let placed = (plain && already_placed(o, jruby_jar(platform, home))) || (!plain && complete
        && already_placed(o, complete_jar(platform, home)));
    with_warning_if(
        with_warning_if(
            with_warning_if(
                with_warning_if(Seq::empty(), plain && complete, Warning::ArchiveConflict),
                !plain && !complete,
                Warning::ArchiveMissing,
            ),
            placed,
            Warning::ArchiveAlreadyPlaced,
        ),
        facts.lib_entries is NoDirectory,
        Warning::LibraryMissing,
    )
}

/// Whether `path` is named like a Java archive.
pub open spec fn is_jar(path: Seq<char>) -> bool {
    has_suffix(path, JAR_SUFFIX@)
}

/// The Java archives among the entries of a directory, in the order of the
/// listing; none where there is no listing.
pub open spec fn jars_of(entries: ListingView) -> Seq<Seq<char>> {
    match entries {
        ListingView::Entries(list) => list.filter(|path: Seq<char>| is_jar(path)),
        _ => Seq::empty(),
    }
}

/// The class path entries from outside the installation: those given on
/// the command line where there are any, else those of `CLASSPATH`. What
/// the command line gives replaces `CLASSPATH` altogether.
pub open spec fn outside_entries(o: LaunchOptionsView, env: Environment) -> Seq<Seq<char>> {
    if o.classpath_explicit.len() == 0 {
        match env.classpath {
            Some(list) => path_list(env.platform, list@),
            None => Seq::empty(),
        }
    } else {
        o.classpath_explicit
    }
}

/// `entries` with an empty entry at the end where there is any entry at
/// all, so that the written list ends in a separator and the working
/// directory is on the class path.
pub open spec fn closed_list(entries: Seq<Seq<char>>) -> Seq<Seq<char>> {
    if entries.len() > 0 {
        entries.push(Seq::empty())
    } else {
        entries
    }
}

/// The class path: what is there after the runtime archive was placed,
/// the Java archives of `lib`, the entries from outside, the entries asked
/// to come last, and the closing empty entry.
pub open spec fn class_path_of(
    o: LaunchOptionsView,
    env: Environment,
    home: Seq<char>,
    facts: HomeFactsView,
) -> Seq<Seq<char>> {
    closed_list(
        with_boot_jar(
            env.platform,
            o,
            home,
            facts,
        ).classpath + jars_of(facts.lib_entries) + outside_entries(
            o,
            env,
        ) + o.classpath_after,
    )
}

/// The class to start.
pub open spec fn boot_class_of(boot_class: Option<Seq<char>>) -> Seq<char> {
    match boot_class {
        Some(class) => class,
        None => MAIN_CLASS@,
    }
}

/// The flag that names the command to the runtime: the class to start,
/// with dots between its parts.
pub open spec fn command_flag(boot_class: Option<Seq<char>>) -> Seq<char> {
    "-Dsun.java.command="@ + char_replaced(boot_class_of(boot_class), '/', '.')
}

/// The flag that hands the boot class path to the runtime: as a module
/// path where the runtime is modular, else appended to its boot class path;
/// no flag for an empty boot class path.
pub open spec fn boot_flags(
    platform: Platform,
    modular: bool,
    boot: Seq<Seq<char>>,
) -> Seq<Seq<char>> {
    if boot.len() == 0 {
        Seq::empty()
    } else if modular {
        seq!["--module-path="@ + listed(platform, boot, boot.len() as int)]
    } else {
        seq!["-Xbootclasspath/a:"@ + listed(platform, boot, boot.len() as int)]
    }
}

/// The four packages that are opened to the distribution where the
/// installation has no file of module options.
pub open spec fn add_opens() -> Seq<Seq<char>> {
    seq![
        "--add-opens"@,
        "java.base/java.io=org.jruby.dist"@,
        "--add-opens"@,
        "java.base/java.nio.channels=org.jruby.dist"@,
        "--add-opens"@,
        "java.base/sun.nio.ch=org.jruby.dist"@,
        "--add-opens"@,
        "java.management/sun.management=org.jruby.dist"@,
    ]
}

/// The module flags of a modular runtime: the file of module options where
/// the installation has one, else the four fixed openings.
pub open spec fn module_flags(
    platform: Platform,
    modular: bool,
    home: Seq<char>,
    module_opts_present: bool,
) -> Seq<
    Seq<char>,
> {
    if !modular {
        Seq::empty()
    } else if module_opts_present {
        seq!["@"@ + module_opts_file(platform, home)]
    } else {
        add_opens()
    }
}

/// Whether the shared-class archive is written anew: where that was asked
/// for, and, with archive files in use, where the archive is stale because
/// the runtime archive is the newer of the two.
pub open spec fn regenerates(cache: CacheOptionsView, jar_newer: bool) -> bool {
    cache.regenerate_jsa_file || (cache.use_jsa_file && jar_newer)
}

/// The flag that tells the runtime what to do with the archive: create it
/// by itself where it can, else write it at exit where a new one is due,
/// else use the one that is there.
pub open spec fn archive_mode_flag(autogenerate: bool, archive: Seq<char>, regenerate: bool)
    -> Seq<char> {
    if autogenerate {
        "-XX:+AutoCreateSharedArchive"@
    } else if regenerate {
        "-XX:ArchiveClassesAtExit="@ + archive
    } else {
        "-XX:SharedArchiveFile="@ + archive
    }
}

/// The two flags that switch the runtime's log of the archive on, into the
/// archive's own path, or off.
pub open spec fn archive_log_flags(log_cds: bool, archive: Seq<char>) -> Seq<Seq<char>> {
    if log_cds {
        seq!["-Xlog:cds=info:file="@ + archive, "-Xlog:cds+dynamic=info:file="@ + archive]
    } else {
        seq!["-Xlog:cds=off"@, "-Xlog:cds+dynamic=off"@]
    }
}

/// The flags of the shared-class archive; none where archive files are not
/// in use.
pub open spec fn archive_flags(
    cache: CacheOptionsView,
    autogenerate: bool,
    archive: Seq<char>,
    regenerate: bool,
) -> Seq<Seq<char>> {
    if cache.use_jsa_file {
        seq![archive_mode_flag(autogenerate, archive, regenerate)] + archive_log_flags(
            cache.log_cds,
            archive,
        )
    } else {
        Seq::empty()
    }
}

/// The flags that newer runtimes want.
pub open spec fn version_flags(native_access: bool, unsafe_memory: bool) -> Seq<Seq<char>> {
    with_flag_if(
        with_flag_if(Seq::empty(), native_access, "--enable-native-access=org.jruby.dist"@),
        unsafe_memory,
        "--sun-misc-unsafe-memory-access=allow"@,
    )
}

/// The flags that hand the class path to the runtime: as an option with
/// its value where the runtime is forked, else as a property.
pub open spec fn class_path_flags(fork: bool, class_path: Seq<char>) -> Seq<Seq<char>> {
    if fork {
        seq!["-cp"@, class_path]
    } else {
        seq!["-Djava.class.path="@ + class_path]
    }
}

/// The first part of the final flag list: the flags that the options
/// held, who is launched, the directory `native` of native libraries, the
/// default stack size where none was asked for, and the command's name.
pub open spec fn head_flags(
    platform: Platform,
    o: LaunchOptionsView,
    home: Seq<char>,
    native: Seq<char>,
) -> Seq<
    Seq<char>,
> {
    with_flag_if(
        (o.java_opts + identity_flags(platform, o.jdk_home, home)).push(
            "-Djffi.boot.library.path="@ + native,
        ),
        o.xss is None,
        XSS_DEFAULT_OPT@,
    ).push(command_flag(o.boot_class))
}

/// The second part of the final flag list: the boot class path, the module
/// flags, the shared-class archive, the flags that newer runtimes want, and
/// the class path.
pub open spec fn tail_flags(
    o: LaunchOptionsView,
    env: Environment,
    home: Seq<char>,
    facts: HomeFactsView,
    class_path: Seq<Seq<char>>,
    boot: Seq<Seq<char>>,
) -> Seq<Seq<char>> {
    boot_flags(env.platform, o.runtime.java_is_modular, boot) + module_flags(
        env.platform,
        o.runtime.java_is_modular,
        home,
        facts.module_opts_present,
    ) + archive_flags(
        o.cache,
        o.runtime.appcds_autogenerate,
        archive_of(o, env, home),
        regenerates(o.cache, facts.jar_newer),
    ) + version_flags(o.runtime.native_access, o.runtime.unsafe_memory) + class_path_flags(
        o.fork_java,
        listed(env.platform, class_path, class_path.len() as int),
    )
}

/// The final flag list for a home, its directory of native libraries, and
/// the two class paths.
pub open spec fn final_flags(
    o: LaunchOptionsView,
    env: Environment,
    home: Seq<char>,
    facts: HomeFactsView,
    native: Seq<char>,
    class_path: Seq<Seq<char>>,
    boot: Seq<Seq<char>>,
) -> Seq<Seq<char>> {
    head_flags(env.platform, o, home, native) + tail_flags(o, env, home, facts, class_path, boot)
}

/// What an assembly ends with: the options as far as they got, and the
/// error that stopped it, if one did.
pub struct Assembly {
    pub options: LaunchOptionsView,
    pub error: Option<LaunchErrorKind>,
}

/// The assembly of the options `o` for an installation of which `facts`
/// were seen.
///
/// It fails without a home, without a directory of native libraries, and
/// where `lib` is a directory that could not be read, and leaves the
/// options as they were. It fails where an entry of one of the class paths
/// holds the list separator; the two class paths are then as they were put
/// together. A missing runtime archive is no error, nor a `lib` that is no
/// directory: they are warnings, which are taken up with the class paths.
#[verifier::opaque]
pub open spec fn assembled(o: LaunchOptionsView, env: Environment, facts: HomeFactsView)
    -> Assembly {
    match o.jruby_home {
        None => Assembly { options: o, error: Some(LaunchErrorKind::HomeNotFound) },
        Some(home) => match library_dir(env.platform, home, facts) {
            None => Assembly { options: o, error: Some(LaunchErrorKind::JniDirNotFound) },
            Some(native) => if facts.lib_entries is Unreadable {
                Assembly { options: o, error: Some(LaunchErrorKind::DirectoryUnreadable) }
            } else {
                let class_path = class_path_of(o, env, home, facts);
                let boot = with_boot_jar(env.platform, o, home, facts).boot_classpath;
                let placed = LaunchOptionsView {
                    classpath: class_path,
                    boot_classpath: boot,
                    warnings: o.warnings + warnings_of(env.platform, o, home, facts),
                    ..o
                };
                if !listable(env.platform, class_path) || !listable(env.platform, boot) {
                    Assembly {
                        options: placed,
                        error: Some(LaunchErrorKind::ClassPathNotJoinable),
                    }
                } else {
                    Assembly {
                        options: LaunchOptionsView {
                            java_opts: final_flags(o, env, home, facts, native, class_path, boot),
                            boot_class: Some(boot_class_of(o.boot_class)),
                            cache: CacheOptionsView {
                                jruby_jsa_file: Some(archive_of(o, env, home)),
                                regenerate_jsa_file: regenerates(o.cache, facts.jar_newer),
                                ..o.cache
                            },
                            ..placed
                        },
                        error: None,
                    }
                }
            },
        },
    }
}

/// The command line that is handed to the Java command: the final flags,
/// the class to start, and the arguments of the program.
pub open spec fn command_line_of(o: LaunchOptionsView) -> Seq<Seq<char>> {
    o.java_opts.push(boot_class_of(o.boot_class)) + o.program_args
}

/// Filtering a sequence with one more element at its end.
proof fn lemma_jars_push(list: Seq<Seq<char>>, path: Seq<char>)
    ensures
        jars_of(ListingView::Entries(list.push(path))) == if is_jar(path) {
            jars_of(ListingView::Entries(list)).push(path)
        } else {
            jars_of(ListingView::Entries(list))
        },
{
    reveal(Seq::filter);
    assert(list.push(path).drop_last() =~= list);
}

/// A list of strings made of one string.
fn one_text(s: String) -> (r: Vec<String>)
    ensures
        texts(r@) == seq![s@],
{
    let mut r: Vec<String> = Vec::new();
    proof {
        lemma_texts_empty();
        lemma_texts_push(r@, s);
    }
    r.push(s);
    assert(texts(r@) =~= seq![s@]);
    r
}

fn make_identity_flags(
    platform: Platform,
    jdk_home: &Option<String>,
    home: &str,
) -> (r: Vec<String>)
    ensures
        texts(r@) == identity_flags(platform, opt_text(*jdk_home), home@),
{
    let mut r: Vec<String> = Vec::new();
    proof {
        lemma_texts_empty();
    }
    if let Some(jdk) = jdk_home {
        let flag = concat("-Djdk.home=", jdk.as_str());
        push_text(&mut r, flag.as_str());
    }
    let ghost jdk = texts(r@);
    let flag = concat("-Djruby.home=", home);
    push_text(&mut r, flag.as_str());
    push_text(&mut r, "-Djruby.script=jruby");
    push_text(&mut r, shell(platform));
    assert(texts(r@) =~= jdk + seq![
        "-Djruby.home="@ + home@,
        "-Djruby.script=jruby"@,
        shell_of(platform),
    ]);
    match jdk_home {
        Some(j) => {
            assert(jdk =~= seq!["-Djdk.home="@ + j@]);
        },
        None => {
            assert(jdk =~= Seq::<Seq<char>>::empty());
        },
    }
    r
}

fn make_add_opens() -> (r: Vec<String>)
    ensures
        texts(r@) == add_opens(),
{
    let mut r: Vec<String> = Vec::new();
    proof {
        lemma_texts_empty();
    }
    push_text(&mut r, "--add-opens");
    push_text(&mut r, "java.base/java.io=org.jruby.dist");
    push_text(&mut r, "--add-opens");
    push_text(&mut r, "java.base/java.nio.channels=org.jruby.dist");
    push_text(&mut r, "--add-opens");
    push_text(&mut r, "java.base/sun.nio.ch=org.jruby.dist");
    push_text(&mut r, "--add-opens");
    push_text(&mut r, "java.management/sun.management=org.jruby.dist");
    assert(texts(r@) =~= add_opens());
    r
}

/// The flags of the shared-class archive.
fn make_archive_flags(
    use_jsa_file: bool,
    log_cds: bool,
    autogenerate: bool,
    archive: &str,
    regenerate: bool,
) -> (r: Vec<String>)
    ensures
        texts(r@) == if use_jsa_file {
            seq![archive_mode_flag(autogenerate, archive@, regenerate)] + archive_log_flags(
                log_cds,
                archive@,
            )
        } else {
            Seq::empty()
        },
{
    let mut r: Vec<String> = Vec::new();
    proof {
        lemma_texts_empty();
    }
    if use_jsa_file {
        if autogenerate {
            push_text(&mut r, "-XX:+AutoCreateSharedArchive");
        } else if regenerate {
            let flag = concat("-XX:ArchiveClassesAtExit=", archive);
            push_text(&mut r, flag.as_str());
        } else {
            let flag = concat("-XX:SharedArchiveFile=", archive);
            push_text(&mut r, flag.as_str());
        }
        if log_cds {
            let one = concat("-Xlog:cds=info:file=", archive);
            let two = concat("-Xlog:cds+dynamic=info:file=", archive);
            push_text(&mut r, one.as_str());
            push_text(&mut r, two.as_str());
        } else {
            push_text(&mut r, "-Xlog:cds=off");
            push_text(&mut r, "-Xlog:cds+dynamic=off");
        }
        assert(texts(r@) =~= seq![archive_mode_flag(autogenerate, archive@, regenerate)]
            + archive_log_flags(log_cds, archive@));
    }
    r
}

/// The module flags.
fn make_module_flags(
    platform: Platform,
    modular: bool,
    home: &str,
    module_opts_present: bool,
) -> (r: Vec<String>)
    ensures
        texts(r@) == module_flags(platform, modular, home@, module_opts_present),
{
    if !modular {
        proof {
            lemma_texts_empty();
        }
        Vec::new()
    } else if module_opts_present {
        let bin = join(platform, home, "bin");
        let file = join(platform, bin.as_str(), ".jruby.module_opts");
        one_text(concat("@", file.as_str()))
    } else {
        make_add_opens()
    }
}

/// The flag of the boot class path, where `written` is what the boot class
/// path is written as.
fn make_boot_flags(
    platform: Platform,
    modular: bool,
    boot: &Vec<String>,
    written: &str,
) -> (r: Vec<String>)
    requires
        written@ == listed(platform, texts(boot@), boot.len() as int),
    ensures
        texts(r@) == boot_flags(platform, modular, texts(boot@)),
{
    if boot.len() == 0 {
        proof {
            lemma_texts_empty();
        }
        Vec::new()
    } else if modular {
        one_text(concat("--module-path=", written))
    } else {
        one_text(concat("-Xbootclasspath/a:", written))
    }
}

/// The flags that newer runtimes want.
fn make_version_flags(native_access: bool, unsafe_memory: bool) -> (r: Vec<String>)
    ensures
        texts(r@) == version_flags(native_access, unsafe_memory),
{
    let mut r: Vec<String> = Vec::new();
    proof {
        lemma_texts_empty();
    }
    if native_access {
        push_text(&mut r, "--enable-native-access=org.jruby.dist");
    }
    if unsafe_memory {
        push_text(&mut r, "--sun-misc-unsafe-memory-access=allow");
    }
    r
}

/// The flags that hand the class path over.
fn make_class_path_flags(fork: bool, class_path: &str) -> (r: Vec<String>)
    ensures
        texts(r@) == class_path_flags(fork, class_path@),
{
    if fork {
        let mut r: Vec<String> = Vec::new();
        proof {
            lemma_texts_empty();
        }
        push_text(&mut r, "-cp");
        push_text(&mut r, class_path);
        assert(texts(r@) =~= seq!["-cp"@, class_path@]);
        r
    } else {
        one_text(concat("-Djava.class.path=", class_path))
    }
}

/// The shared-class archive of a launch.
fn archive_path(
    platform: Platform,
    named: &Option<String>,
    home: &str,
    version: &str,
) -> (r: String)
    ensures
        r@ == archive_file(platform, opt_text(*named), home@, version@),
{
    match named {
        Some(file) => file.as_str().to_owned(),
        None => {
            let mut name = concat("jruby-java", version);
            name.append(".jsa");
            let lib = join(platform, home, "lib");
            join(platform, lib.as_str(), name.as_str())
        },
    }
}

/// The directory of native libraries that `facts` show.
fn native_library_dir(platform: Platform, home: &str, facts: &HomeFacts) -> (r: Option<String>)
    ensures
        opt_text(r) == library_dir(platform, home@, facts@),
{
    let lib = join(platform, home, "lib");
    if facts.jni_present {
        Some(join(platform, lib.as_str(), "jni"))
    } else if facts.native_present {
        Some(join(platform, lib.as_str(), "native"))
    } else {
        None
    }
}

/// The name of the class to start.
fn boot_class_name(boot_class: &Option<String>) -> (r: String)
    ensures
        r@ == boot_class_of(opt_text(*boot_class)),
{
    match boot_class {
        Some(class) => class.as_str().to_owned(),
        None => MAIN_CLASS.to_owned(),
    }
}

impl LaunchOptions {
    /// The installation home with each of `subdirs` joined to it in turn;
    /// `None` before the home is found.
    pub fn jruby_home(&self, platform: Platform, subdirs: Vec<&str>) -> (r: Option<String>)
        ensures
            opt_text(r) == match self@.jruby_home {
                Some(home) => Some(
                    crate::paths::built(platform, home, subdirs@, subdirs.len() as int),
                ),
                None => None,
            },
    {
        match &self.jruby_home {
            Some(home) => Some(
                crate::paths::dir_builder(platform, home.as_str().to_owned(), subdirs),
            ),
            None => None,
        }
    }

    /// The home of the Java runtime with each of `subdirs` joined to it in
    /// turn; `None` before the runtime is found.
    pub fn java_home(&self, platform: Platform, subdirs: Vec<&str>) -> (r: Option<String>)
        ensures
            opt_text(r) == match self@.runtime.java_home {
                Some(home) => Some(
                    crate::paths::built(platform, home, subdirs@, subdirs.len() as int),
                ),
                None => None,
            },
    {
        match &self.runtime.java_home {
            Some(home) => Some(
                crate::paths::dir_builder(platform, home.as_str().to_owned(), subdirs),
            ),
            None => None,
        }
    }

    /// Offers `path` to the class path; `present` tells whether it exists.
    pub fn add_to_class_path(&mut self, path: String, only_if_exists: bool, present: bool)
        ensures
            final(self)@ == added_to_class_path(old(self)@, path@, only_if_exists, present),
    {
        if only_if_exists && !present {
            return ;
        }
        if has_text(&self.classpath, path.as_str()) {
            return ;
        }
        if has_text(&self.boot_classpath, path.as_str()) {
            return ;
        }
        push_text(&mut self.classpath, path.as_str());
    }

    /// Offers `path` to the boot class path; `present` tells whether it
    /// exists.
    pub fn add_to_boot_class_path(&mut self, path: String, only_if_exists: bool, present: bool)
        ensures
            final(self)@ == added_to_boot_class_path(old(self)@, path@, only_if_exists, present),
    {
        if self.no_boot_classpath {
            self.add_to_class_path(path, only_if_exists, present);
            return ;
        }
        if only_if_exists && !present {
            return ;
        }
        if !has_text(&self.boot_classpath, path.as_str()) {
            push_text(&mut self.boot_classpath, path.as_str());
        }
    }

    /// Puts the Java archives among `lib_entries` at the end of the class
    /// path.
    pub fn add_jars_to_classpath(&mut self, lib_entries: &Listing)
        ensures
            final(self)@ == (LaunchOptionsView {
                classpath: old(self)@.classpath + jars_of(lib_entries@),
                ..old(self)@
            }),
    {
        let ghost before = texts(self.classpath@);
        match lib_entries {
            Listing::NoDirectory => {
                assert(before + Seq::<Seq<char>>::empty() =~= before);
            },
            Listing::Unreadable => {
                assert(before + Seq::<Seq<char>>::empty() =~= before);
            },
            Listing::Entries(entries) => {
                let mut i: usize = 0;
                assert(texts(entries@).take(0) =~= Seq::<Seq<char>>::empty());
                assert(before + Seq::<Seq<char>>::empty() =~= before);
                while i < entries.len()
                    invariant
                        i <= entries.len(),
                        texts(self.classpath@) == before + jars_of(
                            ListingView::Entries(texts(entries@).take(i as int)),
                        ),
                        self@ == (LaunchOptionsView {
                            classpath: texts(self.classpath@),
                            ..old(self)@
                        }),
                    decreases entries.len() - i,
                {
                    let path = entries[i].as_str();
                    let ghost done = texts(entries@).take(i as int);
                    proof {
                        assert(texts(entries@).take(i + 1) =~= done.push(path@));
                        lemma_jars_push(done, path@);
                    }
                    if ends_with(path, JAR_SUFFIX) {
                        push_text(&mut self.classpath, path);
                        let ghost jars = jars_of(ListingView::Entries(done));
                        assert(before + jars.push(path@) =~= (before + jars).push(path@));
                    }
                    i += 1;
                }
                assert(texts(entries@).take(entries.len() as int) =~= texts(entries@));
            },
        }
    }

    /// What is amiss, without being an error, in the installation home
    /// `home` of which `facts` were seen, for these options as they are
    /// before the final flag list is put together.
    pub fn home_warnings(
        &self,
        platform: Platform,
        home: &str,
        facts: &HomeFacts,
    ) -> (r: Vec<Warning>)
        ensures
            r@ == warnings_of(platform, self@, home@, facts@),
    {
        let mut r: Vec<Warning> = Vec::new();
        let lib = join(platform, home, "lib");
        let plain = facts.jruby_jar_present;
        let complete = facts.complete_jar_present;
        if plain && complete {
            r.push(Warning::ArchiveConflict);
        }
        if !plain && !complete {
            r.push(Warning::ArchiveMissing);
        }
        let placed = if plain {
            let jar = join(platform, lib.as_str(), "jruby.jar");
            self.holds_already(jar.as_str())
        } else if complete {
            let jar = join(platform, lib.as_str(), "jruby-complete.jar");
            self.holds_already(jar.as_str())
        } else {
            false
        };
        if placed {
            r.push(Warning::ArchiveAlreadyPlaced);
        }
        if let Listing::NoDirectory = &facts.lib_entries {
            r.push(Warning::LibraryMissing);
        }
        r
    }

    /// Whether `path` is already on the class path that the runtime archive
    /// is offered to.
    fn holds_already(&self, path: &str) -> (r: bool)
        ensures
            r == already_placed(self@, path@),
    {
        has_text(&self.boot_classpath, path) || (self.no_boot_classpath && has_text(
            &self.classpath,
            path,
        ))
    }

    /// Places the runtime archive that `facts` show.
    fn place_boot_jar(&mut self, platform: Platform, home: &str, facts: &HomeFacts)
        ensures
            final(self)@ == with_boot_jar(platform, old(self)@, home@, facts@),
    {
        let lib = join(platform, home, "lib");
        if facts.jruby_jar_present {
            let jar = join(platform, lib.as_str(), "jruby.jar");
            self.add_to_boot_class_path(jar, true, true);
        } else if facts.complete_jar_present {
            let jar = join(platform, lib.as_str(), "jruby-complete.jar");
            self.add_to_boot_class_path(jar, false, true);
        }
    }

    /// Puts the class path together.
    fn build_class_path(&mut self, env: &Environment, home: &str, facts: &HomeFacts)
        ensures
            final(self)@ == (LaunchOptionsView {
                classpath: class_path_of(old(self)@, *env, home@, facts@),
                boot_classpath: with_boot_jar(
                    env.platform,
                    old(self)@,
                    home@,
                    facts@,
                ).boot_classpath,
                ..old(self)@
            }),
    {
        self.place_boot_jar(env.platform, home, facts);
        let ghost placed = texts(self.classpath@);
        self.add_jars_to_classpath(&facts.lib_entries);
        if self.classpath_explicit.len() == 0 {
            if let Some(list) = &env.classpath {
                let more = split_paths(env.platform, list.as_str());
                extend_texts(&mut self.classpath, &more);
            } else {
                assert(texts(self.classpath@) + Seq::<Seq<char>>::empty() =~= texts(
                    self.classpath@,
                ));
            }
        } else {
            let more = copy_texts(&self.classpath_explicit);
            extend_texts(&mut self.classpath, &more);
        }
        assert(texts(self.classpath@) == placed + jars_of(facts@.lib_entries) + outside_entries(
            old(self)@,
            *env,
        ));
        let after = copy_texts(&self.classpath_after);
        extend_texts(&mut self.classpath, &after);
        if self.classpath.len() > 0 {
            push_text(&mut self.classpath, "");
            assert(""@ =~= Seq::<char>::empty()) by {
                reveal_strlit("");
            }
        }
    }

    /// The first part of the final flag list.
    fn make_head_flags(&self, platform: Platform, home: &str, native: &str) -> (r: Vec<String>)
        ensures
            texts(r@) == head_flags(platform, self@, home@, native@),
    {
        let mut java_options = copy_texts(&self.java_opts);
        let identity = make_identity_flags(platform, &self.jdk_home, home);
        extend_texts(&mut java_options, &identity);
        let library_path = concat("-Djffi.boot.library.path=", native);
        push_text(&mut java_options, library_path.as_str());
        if self.xss.is_none() {
            push_text(&mut java_options, XSS_DEFAULT_OPT);
        }
        let class = boot_class_name(&self.boot_class).replace('/', '.');
        let command = concat("-Dsun.java.command=", class.as_str());
        push_text(&mut java_options, command.as_str());
        java_options
    }

    /// The second part of the final flag list, where the two class paths
    /// are written as `class_path` and `boot`.
    fn make_tail_flags(
        &self,
        env: &Environment,
        home: &str,
        facts: &HomeFacts,
        class_path: &str,
        boot: &str,
    ) -> (r: Vec<String>)
        requires
            class_path@ == listed(env.platform, self@.classpath, self@.classpath.len() as int),
            boot@ == listed(env.platform, self@.boot_classpath, self@.boot_classpath.len() as int),
        ensures
            texts(r@) == tail_flags(
                self@,
                *env,
                home@,
                facts@,
                self@.classpath,
                self@.boot_classpath,
            ),
    {
        let archive = archive_path(
            env.platform,
            &env.jruby_jsa_file,
            home,
            self.runtime.java_version.as_str(),
        );
        let regenerate = self.regenerates(facts);
        let mut flags = make_boot_flags(
            env.platform,
            self.runtime.java_is_modular,
            &self.boot_classpath,
            boot,
        );
        let module_part = make_module_flags(
            env.platform,
            self.runtime.java_is_modular,
            home,
            facts.module_opts_present,
        );
        let archive_part = make_archive_flags(
            self.cache.use_jsa_file,
            self.cache.log_cds,
            self.runtime.appcds_autogenerate,
            archive.as_str(),
            regenerate,
        );
        let version_part = make_version_flags(
            self.runtime.native_access,
            self.runtime.unsafe_memory,
        );
        let class_path_part = make_class_path_flags(self.fork_java, class_path);
        extend_texts(&mut flags, &module_part);
        extend_texts(&mut flags, &archive_part);
        extend_texts(&mut flags, &version_part);
        extend_texts(&mut flags, &class_path_part);
        flags
    }

    /// Whether the shared-class archive is written anew.
    fn regenerates(&self, facts: &HomeFacts) -> (r: bool)
        ensures
            r == regenerates(self@.cache, facts@.jar_newer),
    {
        self.cache.regenerate_jsa_file || (self.cache.use_jsa_file && facts.jar_newer)
    }

    /// Puts the final flag list together from what was seen of the
    /// installation home.
    ///
    /// The steps, in order: the flags that say who is launched; the
    /// directory of native libraries, without which the launch is given up;
    /// the default stack size where none was asked for; the runtime
    /// archive, on the boot class path or the class path; the class path;
    /// the command's name; the boot class path, as module path for a
    /// modular runtime; the module flags; the shared-class archive; the
    /// flags that newer runtimes want; the class path.
    pub fn assemble(&mut self, env: &Environment, facts: &HomeFacts) -> (r: Result<
        (),
        LaunchError,
    >)
        ensures
            final(self)@ == assembled(old(self)@, *env, facts@).options,
            match assembled(old(self)@, *env, facts@).error {
                Some(kind) => r is Err && r->Err_0.kind == kind,
                None => r is Ok,
            },
    {
        reveal(assembled);
        let home = match &self.jruby_home {
            Some(home) => home.as_str().to_owned(),
            None => {
                return Err(LaunchError::new(LaunchErrorKind::HomeNotFound));
            },
        };
        let native = match native_library_dir(env.platform, home.as_str(), facts) {
            Some(dir) => dir,
            None => {
                return Err(LaunchError::new(LaunchErrorKind::JniDirNotFound));
            },
        };
        if let Listing::Unreadable = &facts.lib_entries {
            return Err(LaunchError::new(LaunchErrorKind::DirectoryUnreadable));
        }
        let mut java_options = self.make_head_flags(env.platform, home.as_str(), native.as_str());
        let mut found = self.home_warnings(env.platform, home.as_str(), facts);
        self.build_class_path(env, home.as_str(), facts);
        self.warnings.append(&mut found);
        let class_path = match join_paths(env.platform, &self.classpath) {
            Some(list) => list,
            None => {
                return Err(LaunchError::new(LaunchErrorKind::ClassPathNotJoinable));
            },
        };
        let boot = match join_paths(env.platform, &self.boot_classpath) {
            Some(list) => list,
            None => {
                return Err(LaunchError::new(LaunchErrorKind::ClassPathNotJoinable));
            },
        };
        let tail = self.make_tail_flags(
            env,
            home.as_str(),
            facts,
            class_path.as_str(),
            boot.as_str(),
        );
        extend_texts(&mut java_options, &tail);
        let archive = archive_path(
            env.platform,
            &env.jruby_jsa_file,
            home.as_str(),
            self.runtime.java_version.as_str(),
        );
        let regenerate = self.regenerates(facts);
        self.boot_class = Some(boot_class_name(&self.boot_class));
        self.cache.jruby_jsa_file = Some(archive);
        self.cache.regenerate_jsa_file = regenerate;
        self.java_opts = java_options;
        Ok(())
    }

    /// The command line that is handed to the Java command: the flags, the
    /// class to start, and the arguments of the program.
    pub fn command_line(&self) -> (r: Vec<String>)
        ensures
            texts(r@) == command_line_of(self@),
    {
        let mut command_line = copy_texts(&self.java_opts);
        push_text(&mut command_line, boot_class_name(&self.boot_class).as_str());
        extend_texts(&mut command_line, &self.program_args);
        command_line
    }
}

/// The assembly of the options `o` on `disk`: that of what `disk` shows of
/// the home.
pub open spec fn assembled_on(o: LaunchOptionsView, env: Environment, disk: Disk) -> Assembly {
    match o.jruby_home {
        Some(home) => assembled(o, env, home_facts(o, env, home, disk)),
        None => Assembly { options: o, error: Some(LaunchErrorKind::HomeNotFound) },
    }
}

/// `facts` are answers of the three functions about the installation
/// home `home`: each was asked about the right path, and `facts` hold what
/// it gave. The two archives were compared only where archive files are in
/// use.
pub open spec fn home_seen<
    E: Fn(&String) -> bool,
    L: Fn(&String) -> Listing,
    N: Fn(&String, &String) -> bool,
>(
    exist_test: E,
    list: L,
    newer: N,
    o: LaunchOptionsView,
    env: Environment,
    home: Seq<char>,
    facts: HomeFactsView,
) -> bool {
    &&& answered(exist_test, jni_dir(env.platform, home), facts.jni_present)
    &&& answered(exist_test, native_dir(env.platform, home), facts.native_present)
    &&& answered(exist_test, jruby_jar(env.platform, home), facts.jruby_jar_present)
    &&& answered(exist_test, complete_jar(env.platform, home), facts.complete_jar_present)
    &&& list_answered(list, lib_dir(env.platform, home), facts.lib_entries)
    &&& answered(exist_test, module_opts_file(env.platform, home), facts.module_opts_present)
    &&& if o.cache.use_jsa_file {
        newer_answered(
            newer,
            jruby_jar(env.platform, home),
            archive_of(o, env, home),
            facts.jar_newer,
        )
    } else {
        !facts.jar_newer
    }
}

/// Whether the assembly `done` is what happened: `o` are the options that
/// it leaves, and `r` tells its error or its success.
pub open spec fn ends_as(done: Assembly, o: LaunchOptionsView, r: Result<(), LaunchError>)
    -> bool {
    o == done.options && match done.error {
        Some(kind) => r is Err && r->Err_0.kind == kind,
        None => r is Ok,
    }
}

/// Looks at the installation home `home` through the three functions.
pub fn survey_home<
    E: Fn(&String) -> bool,
    L: Fn(&String) -> Listing,
    N: Fn(&String, &String) -> bool,
>(
    options: &LaunchOptions,
    env: &Environment,
    home: &str,
    exist_test: E,
    list: L,
    newer: N,
) -> (facts:
    HomeFacts)
    requires
        total(exist_test),
        listable_by(list),
        comparable(newer),
    ensures
        home_seen(exist_test, list, newer, options@, *env, home@, facts@),
        forall|disk: Disk| #[trigger]
            surveys(exist_test, list, newer, disk) ==> facts@ == home_facts(
                options@,
                *env,
                home@,
                disk,
            ),
{
    let lib = join(env.platform, home, "lib");
    let jni = join(env.platform, lib.as_str(), "jni");
    let native = join(env.platform, lib.as_str(), "native");
    let jar = join(env.platform, lib.as_str(), "jruby.jar");
    let complete = join(env.platform, lib.as_str(), "jruby-complete.jar");
    let bin = join(env.platform, home, "bin");
    let module_opts = join(env.platform, bin.as_str(), ".jruby.module_opts");
    let jni_present = exist_test(&jni);
    assert(answered(exist_test, jni_dir(env.platform, home@), jni_present));
    let native_present = exist_test(&native);
    assert(answered(exist_test, native_dir(env.platform, home@), native_present));
    let jruby_jar_present = exist_test(&jar);
    assert(answered(exist_test, jruby_jar(env.platform, home@), jruby_jar_present));
    let complete_jar_present = exist_test(&complete);
    assert(answered(exist_test, complete_jar(env.platform, home@), complete_jar_present));
    let lib_entries = list(&lib);
    assert(list_answered(list, lib_dir(env.platform, home@), lib_entries@));
    let module_opts_present = exist_test(&module_opts);
    assert(answered(exist_test, module_opts_file(env.platform, home@), module_opts_present));
    let jar_newer = if options.cache.use_jsa_file {
        let archive = archive_path(
            env.platform,
            &env.jruby_jsa_file,
            home,
            options.runtime.java_version.as_str(),
        );
        let answer = newer(&jar, &archive);
        assert(newer_answered(newer, jruby_jar(env.platform, home@), archive@, answer));
        answer
    } else {
        false
    };
    HomeFacts {
        jni_present,
        native_present,
        jruby_jar_present,
        complete_jar_present,
        lib_entries,
        module_opts_present,
        jar_newer,
    }
}

impl LaunchOptions {
    /// Looks at the installation home and puts the final flag list
    /// together.
    pub fn prepare_options<
        E: Fn(&String) -> bool,
        L: Fn(&String) -> Listing,
        N: Fn(&String, &String) -> bool,
    >(&mut self, env: &Environment, exist_test: E, list: L, newer: N) -> (r: Result<
        (),
        LaunchError,
    >)
        requires
            total(exist_test),
            listable_by(list),
            comparable(newer),
        ensures
            old(self)@.jruby_home is None ==> r is Err && r->Err_0.kind
                == LaunchErrorKind::HomeNotFound && final(self)@ == old(self)@,
            old(self)@.jruby_home is Some ==> exists|facts: HomeFactsView|
                home_seen(
                    exist_test,
                    list,
                    newer,
                    old(self)@,
                    *env,
                    old(self)@.jruby_home->0,
                    facts,
                ) && #[trigger] ends_as(assembled(old(self)@, *env, facts), final(self)@, r),
            forall|disk: Disk| #[trigger]
                surveys(exist_test, list, newer, disk) ==> ends_as(
                    assembled_on(old(self)@, *env, disk),
                    final(self)@,
                    r,
                ),
    {
        let home = match &self.jruby_home {
            Some(home) => home.as_str().to_owned(),
            None => {
                return Err(LaunchError::new(LaunchErrorKind::HomeNotFound));
            },
        };
        let facts = survey_home(self, env, home.as_str(), exist_test, list, newer);
        let r = self.assemble(env, &facts);
        assert(ends_as(assembled(old(self)@, *env, facts@), self@, r));
        r
    }
}

/// Entries given for the class path on the command line replace those of
/// `CLASSPATH` altogether: with such entries the assembly is the same
/// whatever `CLASSPATH` holds.
pub proof fn law_explicit_class_path_wins(
    o: LaunchOptionsView,
    env: Environment,
    one: Option<String>,
    other: Option<String>,
    facts: HomeFactsView,
)
    requires
        o.classpath_explicit.len() > 0,
    ensures
        assembled(o, Environment { classpath: one, ..env }, facts) == assembled(
            o,
            Environment { classpath: other, ..env },
            facts,
        ),
{
    reveal(assembled);
}

/// The flags after the module flags: the shared-class archive, the flags
/// that newer runtimes want, and the class path.
pub open spec fn closing_flags(
    o: LaunchOptionsView,
    env: Environment,
    home: Seq<char>,
    facts: HomeFactsView,
    class_path: Seq<Seq<char>>,
) -> Seq<Seq<char>> {
    archive_flags(
        o.cache,
        o.runtime.appcds_autogenerate,
        archive_of(o, env, home),
        regenerates(o.cache, facts.jar_newer),
    ) + version_flags(o.runtime.native_access, o.runtime.unsafe_memory) + class_path_flags(
        o.fork_java,
        listed(env.platform, class_path, class_path.len() as int),
    )
}

/// A launch on a modular runtime, from a home that holds the runtime
/// archive and a directory of native libraries but no file of module
/// options, with the boot class path in use and empty so far:
///
/// unless `lib` could not be read, the boot class path becomes the runtime
/// archive alone; the assembly succeeds unless `lib` could not be read or
/// an entry of a class path holds the list separator; and
/// the final flags are the head flags, then the runtime archive as module
/// path, then the four fixed openings in their order, then the closing
/// flags. The boot class path is handed over by no other flag.
pub proof fn law_modular_launch_opens_packages(
    o: LaunchOptionsView,
    env: Environment,
    facts: HomeFactsView,
)
    requires
        o.jruby_home is Some,
        o.runtime.java_is_modular,
        !o.no_boot_classpath,
        o.boot_classpath.len() == 0,
        facts.jruby_jar_present,
        facts.jni_present || facts.native_present,
        !facts.module_opts_present,
    ensures
        ({
            let home = o.jruby_home->0;
            let jar = jruby_jar(env.platform, home);
            let class_path = class_path_of(o, env, home, facts);
            let done = assembled(o, env, facts);
            let read = !(facts.lib_entries is Unreadable);
            &&& read ==> done.options.boot_classpath == seq![jar]
            &&& done.error is None <==> read && listable(env.platform, class_path) && !jar.contains(
                crate::paths::list_separator_of(env.platform),
            )
            &&& !read ==> done.error == Some(LaunchErrorKind::DirectoryUnreadable)
            &&& read && done.error is Some ==> done.error == Some(
                LaunchErrorKind::ClassPathNotJoinable,
            )
            &&& read ==> boot_flags(env.platform, true, done.options.boot_classpath) == seq![
                "--module-path="@ + jar,
            ]
            &&& done.error is None ==> done.options.java_opts == head_flags(
                env.platform,
                o,
                home,
                library_dir(env.platform, home, facts)->0,
            ) + seq!["--module-path="@ + jar] + add_opens() + closing_flags(
                o,
                env,
                home,
                facts,
                class_path,
            )
        }),
{
    reveal(assembled);
    let home = o.jruby_home->0;
    let jar = jruby_jar(env.platform, home);
    let class_path = class_path_of(o, env, home, facts);
    let boot = with_boot_jar(env.platform, o, home, facts).boot_classpath;
    assert(!o.boot_classpath.contains(jar));
    assert(boot =~= seq![jar]);
    assert(listable(
        env.platform,
        boot,
    ) <==> !jar.contains(crate::paths::list_separator_of(env.platform))) by {
        assert(boot[0] == jar);
    }
    assert(listed(env.platform, boot, 1) == jar);
    let native = library_dir(env.platform, home, facts)->0;
    let head = head_flags(env.platform, o, home, native);
    let tail = tail_flags(o, env, home, facts, class_path, boot);
    assert(head + tail =~= head + seq!["--module-path="@ + jar] + add_opens() + closing_flags(
        o,
        env,
        home,
        facts,
        class_path,
    ));
}

/// The same on a file system: where `disk` shows the runtime archive and
/// the directory of native libraries under the home and no file of module
/// options, the assembly on `disk` is the one that
/// `law_modular_launch_opens_packages` describes.
pub proof fn law_modular_launch_on_disk(o: LaunchOptionsView, env: Environment, disk: Disk)
    requires
        o.jruby_home is Some,
        o.runtime.java_is_modular,
        !o.no_boot_classpath,
        o.boot_classpath.len() == 0,
        (disk.present)(jruby_jar(env.platform, o.jruby_home->0)),
        (disk.present)(jni_dir(env.platform, o.jruby_home->0)),
        !(disk.present)(module_opts_file(env.platform, o.jruby_home->0)),
    ensures
        ({
            let home = o.jruby_home->0;
            let jar = jruby_jar(env.platform, home);
            let facts = home_facts(o, env, home, disk);
            let class_path = class_path_of(o, env, home, facts);
            let done = assembled_on(o, env, disk);
            let read = !(facts.lib_entries is Unreadable);
            &&& read ==> done.options.boot_classpath == seq![jar]
            &&& done.error is None <==> read && listable(env.platform, class_path) && !jar.contains(
                crate::paths::list_separator_of(env.platform),
            )
            &&& done.error is None ==> done.options.java_opts == head_flags(
                env.platform,
                o,
                home,
                jni_dir(env.platform, home),
            )
                + seq!["--module-path="@ + jar] + add_opens() + closing_flags(
                o,
                env,
                home,
                facts,
                class_path,
            )
        }),
{
    law_modular_launch_opens_packages(o, env, home_facts(o, env, o.jruby_home->0, disk));
}

} // verus!
