//! What the launcher finds out about the Java runtime: where its command
//! is, which version it has, and what follows from the version.

use vstd::prelude::*;
use crate::disk::{
    list_answered, listable_by, probes, read_answered, readable, Disk, Listing, ListingView,
};
use crate::environment::Environment;
use crate::file_helper::{answered, decides, find_from_path, search_outcome, searched, total};
use crate::launch_options::{
    CacheOptionsView, LaunchError, LaunchErrorKind, LaunchOptions, LaunchOptionsView,
    java_name, java_name_of, jsa_dir, jsa_dir_of, RuntimeInfo, RuntimeInfoView,
};
use crate::paths::{join, joined, parent, parent_of, Platform};
use crate::pattern::{regex_capture, regex_compiles, regex_is_match, Pattern};
use crate::text::{
    chars_of, ends_with, has_suffix, index_of_char, is_digit, lemma_index_of_char_bounds,
    lemma_texts_empty, lemma_texts_push, opt_text, text_between, texts,
};

verus! {

/// The pattern of the line that names the version in a release file.
pub const VERSION_LINE: &'static str = "^JAVA_VERSION=";

/// The pattern that takes the digits and dots of the version out of that
/// line, as capture group 1.
pub const VERSION_VALUE: &'static str = r"JAVA_VERSION=\s*\D*([\d.]+)";

/// The file name ending of a shared-class archive.
pub const ARCHIVE_SUFFIX: &'static str = ".jsa";

/// What a runtime does, or asks for, from some major version on.
#[derive(Debug, Clone, Copy, PartialEq, Eq, Structural)]
pub enum Capability {
    /// The runtime creates its shared-class archive by itself.
    AutoCreateArchive,
    /// Native access has to be enabled by flag.
    NativeAccess,
    /// Unsafe memory access has to be allowed by flag.
    UnsafeMemoryAccess,
}

/// The major version from which on each capability is there, in rising
/// order of versions.
pub open spec fn capability_table() -> Seq<(u16, Capability)> {
    seq![
        (19u16, Capability::AutoCreateArchive),
        (22u16, Capability::NativeAccess),
        (23u16, Capability::UnsafeMemoryAccess),
    ]
}

/// Whether a runtime of the major version `major` has `capability`: the
/// table holds the capability with a version that is not above `major`.
pub open spec fn granted(major: u16, capability: Capability) -> bool {
    exists|i: int|
        0 <= i < capability_table().len() && (#[trigger] capability_table()[i]).1 == capability
            && capability_table()[i].0 <= major
}

/// Each capability is there from one major version on: the runtime creates
/// its archive by itself from 19, native access is enabled from 22, unsafe
/// memory access is allowed from 23.
pub proof fn law_capabilities_by_version(major: u16)
    ensures
        granted(major, Capability::AutoCreateArchive) <==> major >= 19,
        granted(major, Capability::NativeAccess) <==> major >= 22,
        granted(major, Capability::UnsafeMemoryAccess) <==> major >= 23,
{
    let table = capability_table();
    assert(table[0] == (19u16, Capability::AutoCreateArchive));
    assert(table[1] == (22u16, Capability::NativeAccess));
    assert(table[2] == (23u16, Capability::UnsafeMemoryAccess));
}

/// The table of capabilities.
fn capabilities() -> (r: Vec<(u16, Capability)>)
    ensures
        r@ == capability_table(),
{
    let mut r: Vec<(u16, Capability)> = Vec::new();
    r.push((19, Capability::AutoCreateArchive));
    r.push((22, Capability::NativeAccess));
    r.push((23, Capability::UnsafeMemoryAccess));
    assert(r@ =~= capability_table());
    r
}

/// Whether a runtime of the major version `major` has `capability`.
pub fn supports(major: u16, capability: Capability) -> (r: bool)
    ensures
        r == granted(major, capability),
{
    let table = capabilities();
    let mut i: usize = 0;
    while i < table.len()
        invariant
            i <= table.len(),
            table@ == capability_table(),
            forall|k: int|
                0 <= k < i ==> !((#[trigger] capability_table()[k]).1 == capability
                    && capability_table()[k].0 <= major),
        decreases table.len() - i,
    {
        if table[i].1 == capability && table[i].0 <= major {
            return true;
        }
        i += 1;
    }
    false
}

/// `line` without the carriage return at its end, if it has one.
pub open spec fn without_return(line: Seq<char>) -> Seq<char> {
    if line.len() > 0 && line.last() == '\r' {
        line.drop_last()
    } else {
        line
    }
}

/// The lines of `s[start..]`. A line ends at a line feed; the carriage
/// return before the line feed belongs to the line ending. What follows
/// the last line feed is a line only if it is not empty.
pub open spec fn lines_from(s: Seq<char>, start: int) -> Seq<Seq<char>>
    decreases s.len() - start,
{
    if start < 0 || start >= s.len() {
        Seq::empty()
    } else {
        let end = index_of_char(s, start, '\n');
        proof {
            lemma_index_of_char_bounds(s, start, '\n');
        }
        if end >= s.len() {
            seq![s.subrange(start, end)]
        } else {
            seq![without_return(s.subrange(start, end))] + lines_from(s, end + 1)
        }
    }
}

/// The lines of `s`.
pub open spec fn lines_of(s: Seq<char>) -> Seq<Seq<char>> {
    lines_from(s, 0)
}

/// Whether `pattern` compiles and matches somewhere in `line`.
pub open spec fn line_matches(pattern: Seq<char>, line: Seq<char>) -> bool {
    regex_compiles(pattern) && regex_is_match(pattern, line)
}

/// What `pattern` captures as its group `group` in `line`, where it
/// compiles, matches, and the group takes part in the match.
pub open spec fn captured(pattern: Seq<char>, line: Seq<char>, group: int) -> Option<Seq<char>> {
    if regex_compiles(pattern) {
        regex_capture(pattern, line, group)
    } else {
        None
    }
}

/// The lines of `contents` that `pattern` matches, in order.
pub open spec fn matching_lines(contents: Seq<char>, pattern: Seq<char>) -> Seq<Seq<char>> {
    lines_of(contents).filter(|line: Seq<char>| line_matches(pattern, line))
}

/// The version that a release file with the text `contents` names: what
/// the value pattern captures in the first line that the line pattern
/// matches.
pub open spec fn version_in(contents: Seq<char>) -> Option<Seq<char>> {
    let found = matching_lines(contents, VERSION_LINE@);
    if found.len() == 0 {
        None
    } else {
        captured(VERSION_VALUE@, found[0], 1)
    }
}

/// The number that the decimal digits `digits` write.
pub open spec fn decimal(digits: Seq<char>) -> nat
    decreases digits.len(),
{
    if digits.len() == 0 {
        0
    } else {
        decimal(digits.drop_last()) * 10 + ((digits.last() as u32 - '0' as u32) as nat)
    }
}

/// Whether `digits` is made of decimal digits alone.
pub open spec fn all_digits(digits: Seq<char>) -> bool {
    forall|i: int| 0 <= i < digits.len() ==> is_digit(#[trigger] digits[i])
}

/// The part of a version before its first dot, a plus sign at its start
/// set aside.
pub open spec fn major_digits(version: Seq<char>) -> Seq<char> {
    let first = version.take(index_of_char(version, 0, '.'));
    if first.len() > 0 && first[0] == '+' {
        first.skip(1)
    } else {
        first
    }
}

/// The major version that `version` names: the number before its first
/// dot, where that is a number and fits into 16 bits.
///
/// `1.8.0_292` has the major version 1: the old numbering scheme is read
/// like the new one.
pub open spec fn major_of(version: Seq<char>) -> Option<u16> {
    let digits = major_digits(version);
    if digits.len() > 0 && all_digits(digits) && decimal(digits) <= u16::MAX {
        Some(decimal(digits) as u16)
    } else {
        None
    }
}

/// Whether one of `entries` is named like a shared-class archive.
pub open spec fn has_archive(entries: Seq<Seq<char>>) -> bool {
    exists|i: int| 0 <= i < entries.len() && has_suffix(#[trigger] entries[i], ARCHIVE_SUFFIX@)
}

/// One more digit at the end multiplies the number by ten and adds the
/// digit.
proof fn lemma_decimal_grows(digits: Seq<char>, c: char)
    requires
        is_digit(c),
    ensures
        decimal(digits.push(c)) == decimal(digits) * 10 + (c as u32 - '0' as u32),
        decimal(digits.push(c)) >= decimal(digits),
{
    assert(digits.push(c).drop_last() =~= digits);
    assert(digits.push(c).last() == c);
}

/// The number that the first digits write is not above the number that all
/// of them write.
proof fn lemma_decimal_prefix(digits: Seq<char>, n: int)
    requires
        all_digits(digits),
        0 <= n <= digits.len(),
    ensures
        decimal(digits.take(n)) <= decimal(digits),
    decreases digits.len() - n,
{
    if n < digits.len() {
        assert(digits.take(n + 1) =~= digits.take(n).push(digits[n]));
        lemma_decimal_grows(digits.take(n), digits[n]);
        lemma_decimal_prefix(digits, n + 1);
    } else {
        assert(digits.take(n) =~= digits);
    }
}

/// The lines of `contents`.
pub fn lines(contents: &str) -> (r: Vec<String>)
    ensures
        texts(r@) == lines_of(contents@),
{
    let v = chars_of(contents);
    let mut out: Vec<String> = Vec::new();
    let mut start: usize = 0;
    proof {
        lemma_texts_empty();
        assert(Seq::<Seq<char>>::empty() + lines_from(v@, 0) =~= lines_of(contents@));
    }
    while start < v.len()
        invariant
            start <= v.len(),
            v@ == contents@,
            texts(out@) + lines_from(v@, start as int) == lines_of(contents@),
        decreases v.len() - start,
    {
        let mut end = start;
        while end < v.len() && v[end] != '\n'
            invariant
                start <= end <= v.len(),
                index_of_char(v@, start as int, '\n') == index_of_char(v@, end as int, '\n'),
            decreases v.len() - end,
        {
            end += 1;
        }
        let ghost before = texts(out@);
        if end >= v.len() {
            let line = text_between(&v, start, end);
            proof {
                lemma_texts_push(out@, line);
                assert(before + seq![v@.subrange(start as int, end as int)] =~= before.push(
                    v@.subrange(start as int, end as int),
                ));
                assert(before.push(line@) + lines_from(v@, end as int) =~= before.push(line@));
            }
            out.push(line);
            start = end;
        } else {
            let stop = if end > start && v[end - 1] == '\r' {
                end - 1
            } else {
                end
            };
            let line = text_between(&v, start, stop);
            proof {
                let whole = v@.subrange(start as int, end as int);
                assert(line@ =~= without_return(whole));
                lemma_texts_push(out@, line);
                assert(before + (seq![without_return(whole)] + lines_from(v@, end + 1))
                    =~= before.push(line@) + lines_from(v@, end + 1));
            }
            out.push(line);
            start = end + 1;
        }
    }
    assert(texts(out@) + Seq::<Seq<char>>::empty() =~= texts(out@));
    out
}

/// The lines of `contents` that `pattern` matches, or `None` where there
/// is none. A pattern that does not compile matches no line.
pub fn grep(contents: &str, pattern: &str) -> (r: Option<Vec<String>>)
    ensures
        r is None <==> matching_lines(contents@, pattern@).len() == 0,
        r is Some ==> texts(r->0@) == matching_lines(contents@, pattern@),
{
    let all = lines(contents);
    let ghost keep = |line: Seq<char>| line_matches(pattern@, line);
    let re = match Pattern::compile(pattern) {
        Ok(re) => re,
        Err(_) => {
            proof {
                lemma_filter_none(texts(all@), keep);
            }
            return None;
        },
    };
    let mut out: Vec<String> = Vec::new();
    let mut i: usize = 0;
    proof {
        lemma_texts_empty();
        assert(texts(all@).take(0) =~= Seq::<Seq<char>>::empty());
    }
    while i < all.len()
        invariant
            i <= all.len(),
            re@ == pattern@,
            regex_compiles(pattern@),
            keep == |line: Seq<char>| line_matches(pattern@, line),
            texts(out@) == texts(all@).take(i as int).filter(keep),
        decreases all.len() - i,
    {
        let line = all[i].as_str();
        proof {
            let done = texts(all@).take(i as int);
            assert(texts(all@).take(i + 1) =~= done.push(line@));
            filter_push(done, line@, keep);
        }
        if re.is_match(line) {
            crate::text::push_text(&mut out, line);
        }
        i += 1;
    }
    assert(texts(all@).take(all.len() as int) =~= texts(all@));
    if out.len() == 0 {
        None
    } else {
        Some(out)
    }
}

/// A filter that keeps nothing leaves nothing.
proof fn lemma_filter_none(s: Seq<Seq<char>>, keep: spec_fn(Seq<char>) -> bool)
    requires
        forall|x: Seq<char>| !#[trigger] keep(x),
    ensures
        s.filter(keep).len() == 0,
    decreases s.len(),
{
    reveal(Seq::filter);
    if s.len() > 0 {
        lemma_filter_none(s.drop_last(), keep);
    }
}

/// Filtering a sequence with one more element at its end.
proof fn filter_push(s: Seq<Seq<char>>, x: Seq<char>, keep: spec_fn(Seq<char>) -> bool)
    ensures
        s.push(x).filter(keep) == if keep(x) {
            s.filter(keep).push(x)
        } else {
            s.filter(keep)
        },
{
    reveal(Seq::filter);
    assert(s.push(x).drop_last() =~= s);
}

/// The version that a release file names, where the file was there to be
/// read and names one.
pub fn find_java_version(release: &Option<String>) -> (r: Option<String>)
    ensures
        opt_text(r) == match release {
            Some(contents) => version_in(contents@),
            None => None,
        },
{
    match release {
        Some(contents) => {
            match grep(contents.as_str(), VERSION_LINE) {
                Some(found) => {
                    assert(texts(found@)[0] == found@[0]@);
                    match Pattern::compile(VERSION_VALUE) {
                        Ok(re) => re.capture(found[0].as_str(), 1),
                        Err(_) => None,
                    }
                },
                None => None,
            }
        },
        None => None,
    }
}

/// The major version that `full_version` names.
///
/// Note: 1.8 parses as major version 1.
pub fn major_version(full_version: &str) -> (r: Option<u16>)
    ensures
        r == major_of(full_version@),
{
    let v = chars_of(full_version);
    let mut end: usize = 0;
    while end < v.len() && v[end] != '.'
        invariant
            end <= v.len(),
            index_of_char(v@, 0, '.') == index_of_char(v@, end as int, '.'),
        decreases v.len() - end,
    {
        end += 1;
    }
    let start: usize = if end > 0 && v[0] == '+' {
        1
    } else {
        0
    };
    let ghost digits = major_digits(v@);
    assert(digits =~= v@.subrange(start as int, end as int));
    if start == end {
        return None;
    }
    let mut value: u32 = 0;
    let mut i: usize = start;
    assert(digits.take(0) =~= Seq::<char>::empty());
    while i < end
        invariant
            start <= i <= end <= v.len(),
            digits == v@.subrange(start as int, end as int),
            digits == major_digits(full_version@),
            all_digits(digits.take(i - start)),
            value == decimal(digits.take(i - start)),
            value <= u16::MAX,
        decreases end - i,
    {
        let c = v[i];
        if !('0' <= c && c <= '9') {
            assert(!is_digit(digits[i - start]));
            return None;
        }
        proof {
            assert(digits.take(i - start + 1) =~= digits.take(i - start).push(c));
            lemma_decimal_grows(digits.take(i - start), c);
        }
        let digit: u32 = c as u32 - '0' as u32;
        let next: u32 = value * 10 + digit;
        if next > 65535 {
            proof {
                if all_digits(digits) {
                    lemma_decimal_prefix(digits, i - start + 1);
                }
            }
            return None;
        }
        value = next;
        i += 1;
    }
    assert(digits.take(end - start) =~= digits);
    Some(value as u16)
}

/// Whether one of the entries of the runtime's server directory is a
/// shared-class archive. A path that names no directory has none, and
/// nothing is known of a directory that could not be read.
pub fn java_has_appcds(server_entries: &Listing) -> (r: bool)
    ensures
        r == archive_listed(server_entries@),
{
    match server_entries {
        Listing::Entries(entries) => {
            let mut i: usize = 0;
            while i < entries.len()
                invariant
                    i <= entries.len(),
                    server_entries@ == ListingView::Entries(texts(entries@)),
                    forall|k: int|
                        0 <= k < i ==> !has_suffix(#[trigger] texts(entries@)[k], ARCHIVE_SUFFIX@),
                decreases entries.len() - i,
            {
                if ends_with(entries[i].as_str(), ARCHIVE_SUFFIX) {
                    assert(has_suffix(texts(entries@)[i as int], ARCHIVE_SUFFIX@));
                    assert(has_archive(texts(entries@)));
                    return true;
                }
                i += 1;
            }
            false
        },
        _ => false,
    }
}

/// The release file of the Java home `java_home`.
pub open spec fn release_file(platform: Platform, java_home: Seq<char>) -> Seq<char> {
    joined(platform, java_home, "release"@)
}

/// The file that holds the modules of a modular runtime.
pub open spec fn modules_file(platform: Platform, java_home: Seq<char>) -> Seq<char> {
    joined(platform, joined(platform, java_home, "lib"@), "modules"@)
}

/// The directory that holds the runtime's own shared-class archives.
pub open spec fn server_dir(platform: Platform, java_home: Seq<char>) -> Seq<char> {
    joined(platform, joined(platform, java_home, jsa_dir_of(platform)), "server"@)
}

/// The Java command inside a Java home.
pub open spec fn command_in(platform: Platform, java_home: Seq<char>) -> Seq<char> {
    joined(platform, joined(platform, java_home, "bin"@), java_name_of(platform))
}

/// The Java command to start: `JAVACMD` where it is set, else the command
/// inside the JDK asked for on the command line, else the command inside
/// `JAVA_HOME`, else the first one found along `PATH`.
pub open spec fn java_command(
    o: LaunchOptionsView,
    env: Environment,
    present: spec_fn(Seq<char>) -> bool,
) -> Option<Seq<char>> {
    if env.java_cmd is Some {
        Some(env.java_cmd->0@)
    } else if o.jdk_home is Some {
        Some(command_in(env.platform, o.jdk_home->0))
    } else if env.java_home is Some {
        Some(command_in(env.platform, env.java_home->0@))
    } else {
        searched(env.platform, java_name_of(env.platform), opt_text(env.path), present)
    }
}

/// The Java home that a Java command lies in: two levels above it.
pub open spec fn home_of_command(
    platform: Platform,
    command: Option<Seq<char>>,
) -> Option<Seq<char>> {
    match command {
        Some(java) => match parent_of(platform, java) {
            Some(bin) => parent_of(platform, bin),
            None => None,
        },
        None => None,
    }
}

/// What was seen of a Java home.
pub struct JavaHomeFacts {
    /// Whether the modules file or the release file exists.
    pub modular: bool,
    /// The text of the release file, where it could be read.
    pub release: Option<String>,
    /// What listing the server directory gave.
    pub server_entries: Listing,
}

/// What a `JavaHomeFacts` holds, as plain mathematical values.
pub struct JavaHomeFactsView {
    pub modular: bool,
    pub release: Option<Seq<char>>,
    pub server_entries: ListingView,
}

impl View for JavaHomeFacts {
    type V = JavaHomeFactsView;

    open spec fn view(&self) -> JavaHomeFactsView {
        JavaHomeFactsView {
            modular: self.modular,
            release: opt_text(self.release),
            server_entries: self.server_entries@,
        }
    }
}

/// What `disk` shows of the Java home `java_home`.
pub open spec fn java_home_facts(
    platform: Platform,
    java_home: Seq<char>,
    disk: Disk,
) -> JavaHomeFactsView {
    JavaHomeFactsView {
        modular: (disk.present)(modules_file(platform, java_home)) || (disk.present)(
            release_file(platform, java_home),
        ),
        release: (disk.contents)(release_file(platform, java_home)),
        server_entries: (disk.entries)(server_dir(platform, java_home)),
    }
}

/// The two files that tell a modular runtime were asked about, with the
/// answers `modules` and `release`.
pub open spec fn modular_seen<E: Fn(&String) -> bool>(
    platform: Platform,
    exist_test: E,
    java_home: Seq<char>,
    modules: bool,
    release: bool,
) -> bool {
    answered(exist_test, modules_file(platform, java_home), modules) && answered(
        exist_test,
        release_file(platform, java_home),
        release,
    )
}

/// `facts` are answers of the three functions about the Java home
/// `java_home`: each was asked about the right path, and `facts` hold what
/// it gave.
pub open spec fn java_home_seen<
    E: Fn(&String) -> bool,
    R: Fn(&String) -> Option<String>,
    L: Fn(&String) -> Listing,
>(
    platform: Platform,
    exist_test: E,
    read: R,
    list: L,
    java_home: Seq<char>,
    facts: JavaHomeFactsView,
) -> bool {
    &&& exists|modules: bool, release: bool| #[trigger]
        modular_seen(platform, exist_test, java_home, modules, release) && facts.modular == (modules
            || release)
    &&& read_answered(read, release_file(platform, java_home), facts.release)
    &&& list_answered(list, server_dir(platform, java_home), facts.server_entries)
}

/// What the choice of the Java command may end with, told by the answers
/// of `exist_test` alone: only the search along `PATH` asks anything.
pub open spec fn java_found<E: Fn(&String) -> bool>(
    exist_test: E,
    o: LaunchOptionsView,
    env: Environment,
    java: Option<Seq<char>>,
) -> bool {
    if env.java_cmd is Some {
        java == Some(env.java_cmd->0@)
    } else if o.jdk_home is Some {
        java == Some(command_in(env.platform, o.jdk_home->0))
    } else if env.java_home is Some {
        java == Some(command_in(env.platform, env.java_home->0@))
    } else {
        search_outcome(
            env.platform,
            exist_test,
            java_name_of(env.platform),
            opt_text(env.path),
            java,
        )
    }
}

/// What finding the runtime may end with, told by the answers of the three
/// functions alone: a Java command was chosen, its home was looked at, and
/// the result is what follows from what was seen.
pub open spec fn runtime_outcome<
    E: Fn(&String) -> bool,
    R: Fn(&String) -> Option<String>,
    L: Fn(&String) -> Listing,
>(
    exist_test: E,
    read: R,
    list: L,
    o: LaunchOptionsView,
    env: Environment,
    r: Result<RuntimeInfoView, LaunchErrorKind>,
) -> bool {
    exists|java: Option<Seq<char>>, facts: JavaHomeFactsView| #[trigger]
        runtime_seen(exist_test, read, list, o, env, java, facts, r)
}

/// The Java command `java` was chosen, `facts` were seen of its home, and
/// `r` is what follows from them.
pub open spec fn runtime_seen<
    E: Fn(&String) -> bool,
    R: Fn(&String) -> Option<String>,
    L: Fn(&String) -> Listing,
>(
    exist_test: E,
    read: R,
    list: L,
    o: LaunchOptionsView,
    env: Environment,
    java: Option<Seq<char>>,
    facts: JavaHomeFactsView,
    r: Result<RuntimeInfoView, LaunchErrorKind>,
) -> bool {
    java_found(exist_test, o, env, java) && match home_of_command(env.platform, java) {
        Some(java_home) => java_home_seen(
            env.platform,
            exist_test,
            read,
            list,
            java_home,
            facts,
        ) && r
            == runtime_from(java, java_home, facts),
        None => r == Err::<RuntimeInfoView, LaunchErrorKind>(
            LaunchErrorKind::RuntimeVersionUnresolvable,
        ),
    }
}

/// Whether a directory was listed and holds a shared-class archive.
pub open spec fn archive_listed(entries: ListingView) -> bool {
    match entries {
        ListingView::Entries(list) => has_archive(list),
        _ => false,
    }
}

/// What is known of the runtime with the command `java_location` in the
/// home `java_home`, of which `facts` were seen.
///
/// The version cannot be told where the release file was not read, names no
/// version, or names one without a major version. After that, a server
/// directory that is there and could not be read is an error. Three things
/// follow from the major version alone, by the table of capabilities.
pub open spec fn runtime_from(
    java_location: Option<Seq<char>>,
    java_home: Seq<char>,
    facts: JavaHomeFactsView,
) -> Result<RuntimeInfoView, LaunchErrorKind> {
    let version = match facts.release {
        Some(contents) => version_in(contents),
        None => None,
    };
    let major = match version {
        Some(text) => major_of(text),
        None => None,
    };
    if major is None {
        Err(LaunchErrorKind::RuntimeVersionUnresolvable)
    } else if facts.server_entries is Unreadable {
        Err(LaunchErrorKind::DirectoryUnreadable)
    } else {
        Ok(
            RuntimeInfoView {
                java_location,
                java_home: Some(java_home),
                java_is_modular: facts.modular,
                java_version: version->0,
                java_major_version: major->0,
                java_has_appcds: archive_listed(facts.server_entries),
                use_appcds: archive_listed(facts.server_entries),
                appcds_autogenerate: granted(major->0, Capability::AutoCreateArchive),
                native_access: granted(major->0, Capability::NativeAccess),
                unsafe_memory: granted(major->0, Capability::UnsafeMemoryAccess),
            },
        )
    }
}

/// The runtime that is found for the options `o` in the environment `env`
/// on `disk`. The version cannot be told either where no Java command is
/// found or the command has no directory two levels above it.
pub open spec fn runtime_on(o: LaunchOptionsView, env: Environment, disk: Disk) -> Result<
    RuntimeInfoView,
    LaunchErrorKind,
> {
    let java = java_command(o, env, disk.present);
    match home_of_command(env.platform, java) {
        Some(java_home) => runtime_from(
            java,
            java_home,
            java_home_facts(env.platform, java_home, disk),
        ),
        None => Err(LaunchErrorKind::RuntimeVersionUnresolvable),
    }
}

/// The options with the runtime `info` taken up: shared-class archive
/// files are used exactly where the runtime ships such archives and they
/// were not asked to be left aside.
pub open spec fn with_runtime(o: LaunchOptionsView, info: RuntimeInfoView) -> LaunchOptionsView {
    LaunchOptionsView {
        runtime: info,
        cache: CacheOptionsView {
            use_jsa_file: info.use_appcds && !o.cache.disable_jsa_file,
            ..o.cache
        },
        ..o
    }
}

/// What is known of a runtime of which `facts` were seen.
pub fn probe_runtime(java_location: Option<String>, java_home: String, facts: &JavaHomeFacts) -> (r:
    Result<RuntimeInfo, LaunchError>)
    ensures
        match runtime_from(opt_text(java_location), java_home@, facts@) {
            Ok(info) => r is Ok && r->Ok_0@ == info,
            Err(kind) => r is Err && r->Err_0.kind == kind,
        },
{
    let version = match find_java_version(&facts.release) {
        Some(version) => version,
        None => {
            return Err(LaunchError::new(LaunchErrorKind::RuntimeVersionUnresolvable));
        },
    };
    let major = match major_version(version.as_str()) {
        Some(major) => major,
        None => {
            return Err(LaunchError::new(LaunchErrorKind::RuntimeVersionUnresolvable));
        },
    };
    if let Listing::Unreadable = &facts.server_entries {
        return Err(LaunchError::new(LaunchErrorKind::DirectoryUnreadable));
    }
    let has_appcds = java_has_appcds(&facts.server_entries);
    let mut info = RuntimeInfo {
        java_location,
        java_home: Some(java_home),
        java_is_modular: facts.modular,
        java_version: version,
        java_major_version: major,
        java_has_appcds: has_appcds,
        use_appcds: has_appcds,
        appcds_autogenerate: false,
        native_access: false,
        unsafe_memory: false,
    };
    info.make_version_decisions();
    Ok(info)
}

impl RuntimeInfo {
    /// Settles what follows from the major version alone.
    pub fn make_version_decisions(&mut self)
        ensures
            final(self)@ == (RuntimeInfoView {
                appcds_autogenerate: granted(
                    old(self).java_major_version,
                    Capability::AutoCreateArchive,
                ),
                native_access: granted(old(self).java_major_version, Capability::NativeAccess),
                unsafe_memory: granted(
                    old(self).java_major_version,
                    Capability::UnsafeMemoryAccess,
                ),
                ..old(self)@
            }),
    {
        self.appcds_autogenerate = supports(
            self.java_major_version,
            Capability::AutoCreateArchive,
        );
        self.native_access = supports(self.java_major_version, Capability::NativeAccess);
        self.unsafe_memory = supports(self.java_major_version, Capability::UnsafeMemoryAccess);
    }
}

/// Looks at the Java home `java_home` through the three functions.
pub fn survey_java_home<
    E: Fn(&String) -> bool,
    R: Fn(&String) -> Option<String>,
    L: Fn(&String) -> Listing,
>(platform: Platform, java_home: &str, exist_test: E, read: R, list: L) -> (facts: JavaHomeFacts)
    requires
        total(exist_test),
        readable(read),
        listable_by(list),
    ensures
        java_home_seen(platform, exist_test, read, list, java_home@, facts@),
        forall|disk: Disk| #[trigger]
            probes(
                exist_test,
                read,
                list,
                disk,
            ) ==> facts@ == java_home_facts(platform, java_home@, disk),
{
    let lib = join(platform, java_home, "lib");
    let modules = join(platform, lib.as_str(), "modules");
    let release_path = join(platform, java_home, "release");
    let seen_modules = exist_test(&modules);
    let seen_release = exist_test(&release_path);
    assert(modular_seen(platform, exist_test, java_home@, seen_modules, seen_release));
    let release = read(&release_path);
    assert(read_answered(read, release_file(platform, java_home@), opt_text(release)));
    let jsa = join(platform, java_home, jsa_dir(platform));
    let server = join(platform, jsa.as_str(), "server");
    let server_entries = list(&server);
    assert(list_answered(list, server_dir(platform, java_home@), server_entries@));
    JavaHomeFacts { modular: seen_modules || seen_release, release, server_entries }
}

impl LaunchOptions {
    /// The Java command to start, where one is found.
    pub fn find_java<E: Fn(&String) -> bool>(&self, env: &Environment, exist_test: E) -> (r: Option<
        String,
    >)
        requires
            total(exist_test),
        ensures
            java_found(exist_test, self@, *env, opt_text(r)),
            forall|present: spec_fn(Seq<char>) -> bool| #[trigger]
                decides(exist_test, present) ==> opt_text(r) == java_command(self@, *env, present),
    {
        if let Some(cmd) = &env.java_cmd {
            Some(cmd.as_str().to_owned())
        } else if let Some(jdk) = &self.jdk_home {
            let bin = join(env.platform, jdk.as_str(), "bin");
            Some(join(env.platform, bin.as_str(), java_name(env.platform)))
        } else if let Some(home) = &env.java_home {
            let bin = join(env.platform, home.as_str(), "bin");
            Some(join(env.platform, bin.as_str(), java_name(env.platform)))
        } else {
            find_from_path(env.platform, java_name(env.platform), &env.path, exist_test)
        }
    }

    /// Finds the Java runtime and takes up what is known of it.
    ///
    /// On an error the options are left as they were.
    pub fn determine_java_location<
        E: Fn(&String) -> bool + Copy,
        R: Fn(&String) -> Option<String>,
        L: Fn(&String) -> Listing,
    >(&mut self, env: &Environment, exist_test: E, read: R, list: L) -> (r: Result<(), LaunchError>)
        requires
            total(exist_test),
            readable(read),
            listable_by(list),
        ensures
            r is Err ==> final(self)@ == old(self)@,
            r is Ok ==> final(self)@ == with_runtime(old(self)@, final(self)@.runtime),
            runtime_outcome(
                exist_test,
                read,
                list,
                old(self)@,
                *env,
                match r {
                    Ok(_) => Ok(final(self)@.runtime),
                    Err(e) => Err(e.kind),
                },
            ),
            forall|disk: Disk| #[trigger]
                probes(exist_test, read, list, disk) ==> match runtime_on(old(self)@, *env, disk) {
                    Ok(info) => r is Ok && final(self)@ == with_runtime(old(self)@, info),
                    Err(kind) => r is Err && r->Err_0.kind == kind,
                },
    {
        let java = self.find_java(env, exist_test);
        let java_home = match &java {
            Some(command) => match parent(env.platform, command.as_str()) {
                Some(bin) => parent(env.platform, bin.as_str()),
                None => None,
            },
            None => None,
        };
        assert(opt_text(java_home) == home_of_command(env.platform, opt_text(java)));
        let java_home = match java_home {
            Some(home) => home,
            None => {
                assert(runtime_seen(
                    exist_test,
                    read,
                    list,
                    old(self)@,
                    *env,
                    opt_text(java),
                    JavaHomeFactsView {
                        modular: false,
                        release: None,
                        server_entries: ListingView::NoDirectory,
                    },
                    Err(LaunchErrorKind::RuntimeVersionUnresolvable),
                ));
                return Err(LaunchError::new(LaunchErrorKind::RuntimeVersionUnresolvable));
            },
        };
        let ghost chosen = opt_text(java);
        let facts = survey_java_home(env.platform, java_home.as_str(), exist_test, read, list);
        let info = match probe_runtime(java, java_home, &facts) {
            Ok(info) => info,
            Err(e) => {
                assert(runtime_seen(
                    exist_test,
                    read,
                    list,
                    old(self)@,
                    *env,
                    chosen,
                    facts@,
                    Err(e.kind),
                ));
                return Err(e);
            },
        };
        assert(runtime_seen(
            exist_test,
            read,
            list,
            old(self)@,
            *env,
            chosen,
            facts@,
            Ok(info@),
        ));
        self.cache.use_jsa_file = info.use_appcds && !self.cache.disable_jsa_file;
        self.runtime = info;
        Ok(())
    }
}

/// A runtime whose home holds the release file or the modules file is
/// modular: where `disk` shows one of the two and a runtime is found, the
/// runtime has the module system, and it has it only then.
pub proof fn law_release_file_tells_a_modular_runtime(
    o: LaunchOptionsView,
    env: Environment,
    disk: Disk,
)
    requires
        runtime_on(o, env, disk) is Ok,
    ensures
        ({
            let java_home = home_of_command(env.platform, java_command(o, env, disk.present))->0;
            runtime_on(o, env, disk)->Ok_0.java_is_modular == ((disk.present)(
                release_file(env.platform, java_home),
            ) || (disk.present)(modules_file(env.platform, java_home)))
        }),
{
}

} // verus!
