//! File-system paths as text, in the syntax of the platform: on POSIX,
//! components separated by `/` and lists of paths by `:`; on Windows,
//! components separated by `\` or `/` and lists of paths by `;`. Nothing
//! here touches the file system.
//!
//! Components are told apart by separators alone: `.` and `..` are
//! components like any other, a list of paths is split at every list
//! separator, and quotes in a list are not read.

use vstd::prelude::*;
use crate::text::{
    chars_of, concat, index_of_char, lemma_index_of_char_bounds, lemma_texts_empty,
    lemma_texts_push, text_between, texts,
};

verus! {

/// The platform whose paths and file names the launcher deals with.
#[derive(Debug, Clone, Copy, PartialEq, Eq, Structural)]
pub enum Platform {
    /// Linux, macOS and the other systems with POSIX paths.
    Posix,
    /// Windows.
    Windows,
}

/// The ending that a file that can be started has on Windows.
pub const EXE_SUFFIX: &'static str = ".exe";

/// The character that is put between the components of a path.
pub open spec fn separator_of(platform: Platform) -> char {
    match platform {
        Platform::Posix => '/',
        Platform::Windows => '\\',
    }
}

/// Whether `c` separates the components of a path.
pub open spec fn is_separator(platform: Platform, c: char) -> bool {
    c == '/' || (platform is Windows && c == '\\')
}

/// The character that separates the paths of a list such as `PATH` or
/// `CLASSPATH`.
pub open spec fn list_separator_of(platform: Platform) -> char {
    match platform {
        Platform::Posix => ':',
        Platform::Windows => ';',
    }
}

/// Whether `c` is an ASCII letter, as the name of a drive is.
pub open spec fn is_drive_letter(c: char) -> bool {
    ('a' <= c && c <= 'z') || ('A' <= c && c <= 'Z')
}

/// How many characters at the start of `p` name its root: one separator on
/// POSIX; on Windows a drive with its colon and a separator, or, without a
/// drive, one separator; none where the path does not start at a root.
pub open spec fn root_len(platform: Platform, p: Seq<char>) -> int {
    if platform is Windows && p.len() >= 3 && is_drive_letter(p[0]) && p[1] == ':' && is_separator(
        platform,
        p[2],
    ) {
        3
    } else if p.len() >= 1 && is_separator(platform, p[0]) {
        1
    } else {
        0
    }
}

/// A path that says by itself where it leads: on POSIX one that starts at
/// the root; on Windows one that starts with a drive and a separator, or
/// with two separators.
pub open spec fn is_absolute_path(platform: Platform, p: Seq<char>) -> bool {
    match platform {
        Platform::Posix => root_len(platform, p) == 1,
        Platform::Windows => root_len(platform, p) == 3 || (p.len() >= 2 && is_separator(
            platform,
            p[0],
        ) && is_separator(platform, p[1])),
    }
}

/// `name` resolved against `base`: an absolute `name` stands for itself,
/// otherwise it follows `base`, with one separator put between the two
/// unless `base` is empty or already ends in one.
pub open spec fn joined(platform: Platform, base: Seq<char>, name: Seq<char>) -> Seq<char> {
    if is_absolute_path(platform, name) {
        name
    } else if base.len() == 0 || is_separator(platform, base.last()) {
        base + name
    } else {
        base.push(separator_of(platform)) + name
    }
}

/// `base` with each of `subdirs[..count]` joined to it in turn.
pub open spec fn built(platform: Platform, base: Seq<char>, subdirs: Seq<&str>, count: int) -> Seq<
    char,
>
    decreases count,
{
    if count <= 0 || count > subdirs.len() {
        base
    } else {
        joined(platform, built(platform, base, subdirs, count - 1), subdirs[count - 1]@)
    }
}

/// The length of `p[..end]` once the separators at its end are dropped.
pub open spec fn trimmed_len(platform: Platform, p: Seq<char>, end: int) -> int
    decreases end,
{
    if end <= 0 || end > p.len() {
        0
    } else if is_separator(platform, p[end - 1]) {
        trimmed_len(platform, p, end - 1)
    } else {
        end
    }
}

/// Where the component that ends at `end` begins.
pub open spec fn name_start(platform: Platform, p: Seq<char>, end: int) -> int
    decreases end,
{
    if end <= 0 || end > p.len() {
        0
    } else if is_separator(platform, p[end - 1]) {
        end
    } else {
        name_start(platform, p, end - 1)
    }
}

/// The last component of `p`, separators at the end of `p` set aside; empty
/// where `p` has no component.
pub open spec fn base_name_of(platform: Platform, p: Seq<char>) -> Seq<char> {
    let end = trimmed_len(platform, p, p.len() as int);
    p.subrange(name_start(platform, p, end), end)
}

/// `p` without its last component: `None` for the empty path and for a
/// root, the root for a component directly under it, the empty path for a
/// single relative component.
pub open spec fn parent_of(platform: Platform, p: Seq<char>) -> Option<Seq<char>> {
    let root = root_len(platform, p);
    let end = trimmed_len(platform, p, p.len() as int);
    let begin = name_start(platform, p, end);
    let keep = trimmed_len(platform, p, begin);
    if end <= root {
        None
    } else if keep < root {
        Some(p.take(root))
    } else {
        Some(p.take(keep))
    }
}

/// Whether `p` holds a directory part before its last component.
pub open spec fn has_directory_part(platform: Platform, p: Seq<char>) -> bool {
    match parent_of(platform, p) {
        Some(dir) => dir.len() > 0,
        None => false,
    }
}

/// `p` after climbing `levels` times to the parent, stopping early at a
/// path that has none.
pub open spec fn ancestor_of(platform: Platform, p: Seq<char>, levels: nat) -> Seq<char>
    decreases levels,
{
    if levels == 0 {
        p
    } else {
        match parent_of(platform, p) {
            Some(dir) => ancestor_of(platform, dir, (levels - 1) as nat),
            None => p,
        }
    }
}

/// The fields of `s[start..]` between occurrences of `separator`. There is
/// always at least one field, and a field may be empty.
pub open spec fn fields_from(s: Seq<char>, separator: char, start: int) -> Seq<Seq<char>>
    decreases s.len() - start,
{
    if start < 0 || start > s.len() {
        Seq::empty()
    } else {
        let end = index_of_char(s, start, separator);
        proof {
            lemma_index_of_char_bounds(s, start, separator);
        }
        if end >= s.len() {
            seq![s.subrange(start, end)]
        } else {
            seq![s.subrange(start, end)] + fields_from(s, separator, end + 1)
        }
    }
}

/// The paths that a list such as `PATH` names, empty ones included.
pub open spec fn path_list(platform: Platform, s: Seq<char>) -> Seq<Seq<char>> {
    fields_from(s, list_separator_of(platform), 0)
}

/// The first `count` of `paths` written as one list.
pub open spec fn listed(platform: Platform, paths: Seq<Seq<char>>, count: int) -> Seq<char>
    decreases count,
{
    if count <= 0 || count > paths.len() {
        Seq::empty()
    } else if count == 1 {
        paths[0]
    } else {
        listed(platform, paths, count - 1).push(list_separator_of(platform)) + paths[count - 1]
    }
}

/// Whether every one of `paths` can stand in a list, that is, holds no list
/// separator.
pub open spec fn listable(platform: Platform, paths: Seq<Seq<char>>) -> bool {
    forall|i: int|
        0 <= i < paths.len() ==> !(#[trigger] paths[i]).contains(list_separator_of(platform))
}

/// Whether the last component of `p` has an extension: a dot that is not
/// its first character. The component `..` has none.
pub open spec fn has_extension(platform: Platform, p: Seq<char>) -> bool {
    let name = base_name_of(platform, p);
    name != seq!['.', '.'] && exists|i: int| 0 < i < name.len() && #[trigger] name[i] == '.'
}

/// The name under which the launcher was started, as the name of a file
/// that can be started: on Windows a name without an extension gets the
/// ending `.exe`; elsewhere, and with an extension, it stays as it is.
pub open spec fn executable_name_of(platform: Platform, argv0: Seq<char>) -> Seq<char> {
    if platform is Windows && !has_extension(platform, argv0) {
        argv0 + EXE_SUFFIX@
    } else {
        argv0
    }
}

/// The character that is put between the components of a path.
pub fn separator(platform: Platform) -> (r: char)
    ensures
        r == separator_of(platform),
{
    match platform {
        Platform::Posix => '/',
        Platform::Windows => '\\',
    }
}

/// The character that separates the paths of a list.
pub fn list_separator(platform: Platform) -> (r: char)
    ensures
        r == list_separator_of(platform),
{
    match platform {
        Platform::Posix => ':',
        Platform::Windows => ';',
    }
}

/// Whether `c` separates the components of a path.
fn separates(platform: Platform, c: char) -> (r: bool)
    ensures
        r == is_separator(platform, c),
{
    c == '/' || (platform == Platform::Windows && c == '\\')
}

/// How many characters at the start of `v` name its root.
fn root_of(platform: Platform, v: &Vec<char>) -> (r: usize)
    ensures
        r == root_len(platform, v@),
        r <= v.len(),
{
    if platform == Platform::Windows && v.len() >= 3 && (('a' <= v[0] && v[0] <= 'z') || ('A'
        <= v[0] && v[0] <= 'Z')) && v[1] == ':' && separates(platform, v[2]) {
        3
    } else if v.len() >= 1 && separates(platform, v[0]) {
        1
    } else {
        0
    }
}

/// Whether `p` says by itself where it leads.
pub fn is_absolute(platform: Platform, p: &str) -> (r: bool)
    ensures
        r == is_absolute_path(platform, p@),
{
    let v = chars_of(p);
    let root = root_of(platform, &v);
    match platform {
        Platform::Posix => root == 1,
        Platform::Windows => root == 3 || (v.len() >= 2 && separates(platform, v[0]) && separates(
            platform,
            v[1],
        )),
    }
}

/// `name` resolved against `base`.
pub fn join(platform: Platform, base: &str, name: &str) -> (r: String)
    ensures
        r@ == joined(platform, base@, name@),
{
    let b = chars_of(base);
    if is_absolute(platform, name) {
        name.to_owned()
    } else if b.len() == 0 || separates(platform, b[b.len() - 1]) {
        concat(base, name)
    } else {
        let mut s = base.to_owned();
        s.push(separator(platform));
        s.append(name);
        s
    }
}

/// `path` with each of `subdirs` joined to it in turn.
pub fn dir_builder(platform: Platform, path: String, subdirs: Vec<&str>) -> (r: String)
    ensures
        r@ == built(platform, path@, subdirs@, subdirs.len() as int),
{
    let mut path = path;
    let ghost start = path@;
    let mut i: usize = 0;
    while i < subdirs.len()
        invariant
            i <= subdirs.len(),
            path@ == built(platform, start, subdirs@, i as int),
        decreases subdirs.len() - i,
    {
        path = join(platform, path.as_str(), subdirs[i]);
        i += 1;
    }
    path
}

fn trim_end(platform: Platform, v: &Vec<char>, end: usize) -> (r: usize)
    requires
        end <= v.len(),
    ensures
        r == trimmed_len(platform, v@, end as int),
        r <= end,
{
    let mut e = end;
    while e > 0 && separates(platform, v[e - 1])
        invariant
            e <= end <= v.len(),
            trimmed_len(platform, v@, e as int) == trimmed_len(platform, v@, end as int),
        decreases e,
    {
        e -= 1;
    }
    e
}

fn find_name_start(platform: Platform, v: &Vec<char>, end: usize) -> (r: usize)
    requires
        end <= v.len(),
    ensures
        r == name_start(platform, v@, end as int),
        r <= end,
{
    let mut b = end;
    while b > 0 && !separates(platform, v[b - 1])
        invariant
            b <= end <= v.len(),
            name_start(platform, v@, b as int) == name_start(platform, v@, end as int),
        decreases b,
    {
        b -= 1;
    }
    b
}

/// The last component of `p`.
pub fn base_name(platform: Platform, p: &str) -> (r: String)
    ensures
        r@ == base_name_of(platform, p@),
{
    let v = chars_of(p);
    let end = trim_end(platform, &v, v.len());
    let begin = find_name_start(platform, &v, end);
    text_between(&v, begin, end)
}

/// `p` without its last component.
pub fn parent(platform: Platform, p: &str) -> (r: Option<String>)
    ensures
        crate::text::opt_text(r) == parent_of(platform, p@),
{
    let v = chars_of(p);
    let root = root_of(platform, &v);
    let end = trim_end(platform, &v, v.len());
    if end <= root {
        return None;
    }
    let begin = find_name_start(platform, &v, end);
    let keep = trim_end(platform, &v, begin);
    let cut = if keep < root {
        root
    } else {
        keep
    };
    let s = text_between(&v, 0, cut);
    assert(v@.subrange(0, cut as int) =~= v@.take(cut as int));
    Some(s)
}

/// Whether `p` holds a directory part before its last component.
pub fn has_parent(platform: Platform, p: &str) -> (r: bool)
    ensures
        r == has_directory_part(platform, p@),
{
    match parent(platform, p) {
        Some(dir) => chars_of(dir.as_str()).len() > 0,
        None => false,
    }
}

/// `p` after climbing `levels` times to the parent.
pub fn ancestor(platform: Platform, p: &str, levels: usize) -> (r: String)
    ensures
        r@ == ancestor_of(platform, p@, levels as nat),
{
    let mut current = p.to_owned();
    let mut left = levels;
    while left > 0
        invariant
            ancestor_of(platform, current@, left as nat) == ancestor_of(
                platform,
                p@,
                levels as nat,
            ),
        decreases left,
    {
        match parent(platform, current.as_str()) {
            Some(dir) => {
                current = dir;
                left -= 1;
            },
            None => {
                return current;
            },
        }
    }
    current
}

/// The paths that the list `s` names.
pub fn split_paths(platform: Platform, s: &str) -> (r: Vec<String>)
    ensures
        texts(r@) == path_list(platform, s@),
{
    let separator = list_separator(platform);
    let v = chars_of(s);
    let mut out: Vec<String> = Vec::new();
    let mut start: usize = 0;
    proof {
        lemma_texts_empty();
    }
    loop
        invariant
            start <= v.len(),
            v@ == s@,
            separator == list_separator_of(platform),
            texts(out@) + fields_from(v@, separator, start as int) == path_list(platform, s@),
        decreases v.len() - start,
    {
        let mut end = start;
        while end < v.len() && v[end] != separator
            invariant
                start <= end <= v.len(),
                index_of_char(v@, start as int, separator) == index_of_char(
                    v@,
                    end as int,
                    separator,
                ),
            decreases v.len() - end,
        {
            end += 1;
        }
        let field = text_between(&v, start, end);
        let ghost before = texts(out@);
        proof {
            lemma_texts_push(out@, field);
        }
        out.push(field);
        if end >= v.len() {
            assert(before + seq![v@.subrange(start as int, end as int)] =~= before.push(
                v@.subrange(start as int, end as int),
            ));
            return out;
        }
        assert(before + (seq![v@.subrange(start as int, end as int)] + fields_from(
            v@,
            separator,
            end + 1,
        )) =~= before.push(v@.subrange(start as int, end as int)) + fields_from(
            v@,
            separator,
            end + 1,
        ));
        start = end + 1;
    }
}

/// Whether `p` holds the character `c`.
fn holds_char(p: &str, c: char) -> (r: bool)
    ensures
        r == p@.contains(c),
{
    let v = chars_of(p);
    let mut i: usize = 0;
    while i < v.len()
        invariant
            i <= v.len(),
            v@ == p@,
            forall|k: int| 0 <= k < i ==> v@[k] != c,
        decreases v.len() - i,
    {
        if v[i] == c {
            return true;
        }
        i += 1;
    }
    false
}

/// `paths` written as one list, or `None` where one of them holds the list
/// separator and so cannot stand in a list.
pub fn join_paths(platform: Platform, paths: &Vec<String>) -> (r: Option<String>)
    ensures
        r is Some <==> listable(platform, texts(paths@)),
        r is Some ==> r->0@ == listed(platform, texts(paths@), paths.len() as int),
{
    let separator = list_separator(platform);
    let mut out = String::new();
    let mut i: usize = 0;
    while i < paths.len()
        invariant
            i <= paths.len(),
            separator == list_separator_of(platform),
            out@ == listed(platform, texts(paths@), i as int),
            forall|k: int| 0 <= k < i ==> !(#[trigger] texts(paths@)[k]).contains(separator),
        decreases paths.len() - i,
    {
        if holds_char(paths[i].as_str(), separator) {
            assert(texts(paths@)[i as int].contains(separator));
            return None;
        }
        if i > 0 {
            out.push(separator);
        } else {
            assert(Seq::<char>::empty() + paths@[0]@ =~= paths@[0]@);
        }
        out.append(paths[i].as_str());
        i += 1;
    }
    Some(out)
}

/// Whether the last component of `p` has an extension.
pub fn holds_extension(platform: Platform, p: &str) -> (r: bool)
    ensures
        r == has_extension(platform, p@),
{
    let name = base_name(platform, p);
    let v = chars_of(name.as_str());
    if v.len() == 2 && v[0] == '.' && v[1] == '.' {
        assert(v@ =~= seq!['.', '.']);
        return false;
    }
    let mut i: usize = 1;
    while i < v.len()
        invariant
            1 <= i,
            v@ == base_name_of(platform, p@),
            v@ != seq!['.', '.'],
            forall|k: int| 0 < k < i && k < v.len() ==> v@[k] != '.',
        decreases v.len() - i,
    {
        if v[i] == '.' {
            return true;
        }
        i += 1;
    }
    false
}

/// The name under which the launcher was started, as the name of a file
/// that can be started.
pub fn executable_name(platform: Platform, argv0: &str) -> (r: String)
    ensures
        r@ == executable_name_of(platform, argv0@),
{
    if platform == Platform::Windows && !holds_extension(platform, argv0) {
        concat(argv0, EXE_SUFFIX)
    } else {
        argv0.to_owned()
    }
}

} // verus!
