//! The file system as the launcher sees it: four questions, each asked
//! through a function that the caller hands in.
//!
//! Nothing is assumed of those functions. What the launcher does is stated
//! against a `Disk`, a mathematical picture of a file system, and holds for
//! every picture that the functions agree with.

use vstd::prelude::*;
use crate::file_helper::{decides, total};
use crate::text::{opt_text, texts};

verus! {

/// What listing a directory gave.
#[derive(Debug)]
pub enum Listing {
    /// The paths of the entries of the directory.
    Entries(Vec<String>),
    /// The path names no directory.
    NoDirectory,
    /// The path names a directory that could not be read.
    Unreadable,
}

/// What a `Listing` holds, as plain mathematical values.
pub enum ListingView {
    Entries(Seq<Seq<char>>),
    NoDirectory,
    Unreadable,
}

impl View for Listing {
    type V = ListingView;

    open spec fn view(&self) -> ListingView {
        match self {
            Listing::Entries(list) => ListingView::Entries(texts(list@)),
            Listing::NoDirectory => ListingView::NoDirectory,
            Listing::Unreadable => ListingView::Unreadable,
        }
    }
}

/// A picture of the file system.
pub struct Disk {
    /// Whether a path exists.
    pub present: spec_fn(Seq<char>) -> bool,
    /// The text of a file, where the path names one that can be read.
    pub contents: spec_fn(Seq<char>) -> Option<Seq<char>>,
    /// What listing a path gives.
    pub entries: spec_fn(Seq<char>) -> ListingView,
    /// Whether the first path was modified later than the second.
    pub newer: spec_fn(Seq<char>, Seq<char>) -> bool,
}

/// `read` never answers otherwise than `contents` says.
pub open spec fn reads<R: Fn(&String) -> Option<String>>(
    read: R,
    contents: spec_fn(Seq<char>) -> Option<Seq<char>>,
) -> bool {
    forall|s: String, answer: Option<String>| #[trigger]
        read.ensures((&s,), answer) ==> opt_text(answer) == contents(s@)
}

/// `list` never answers otherwise than `entries` says.
pub open spec fn lists<L: Fn(&String) -> Listing>(
    list: L,
    entries: spec_fn(Seq<char>) -> ListingView,
) -> bool {
    forall|s: String, answer: Listing| #[trigger]
        list.ensures((&s,), answer) ==> answer@ == entries(s@)
}

/// `newer` never answers otherwise than `later` says.
pub open spec fn compares<N: Fn(&String, &String) -> bool>(
    newer: N,
    later: spec_fn(Seq<char>, Seq<char>) -> bool,
) -> bool {
    forall|a: String, b: String, answer: bool| #[trigger]
        newer.ensures((&a, &b), answer) ==> answer == later(a@, b@)
}

/// Whether `read` may be asked about every path.
pub open spec fn readable<R: Fn(&String) -> Option<String>>(read: R) -> bool {
    forall|s: &String| #[trigger] read.requires((s,))
}

/// Whether `list` may be asked about every path.
pub open spec fn listable_by<L: Fn(&String) -> Listing>(list: L) -> bool {
    forall|s: &String| #[trigger] list.requires((s,))
}

/// Whether `newer` may be asked about every two paths.
pub open spec fn comparable<N: Fn(&String, &String) -> bool>(newer: N) -> bool {
    forall|a: &String, b: &String| #[trigger] newer.requires((a, b))
}

/// Whether the three functions that look at the Java home agree with
/// `disk`.
pub open spec fn probes<
    E: Fn(&String) -> bool,
    R: Fn(&String) -> Option<String>,
    L: Fn(&String) -> Listing,
>(exist_test: E, read: R, list: L, disk: Disk) -> bool {
    decides(exist_test, disk.present) && reads(read, disk.contents) && lists(list, disk.entries)
}

/// Whether the three functions that look at the installation home agree
/// with `disk`.
pub open spec fn surveys<
    E: Fn(&String) -> bool,
    L: Fn(&String) -> Listing,
    N: Fn(&String, &String) -> bool,
>(exist_test: E, list: L, newer: N, disk: Disk) -> bool {
    decides(exist_test, disk.present) && lists(list, disk.entries) && compares(newer, disk.newer)
}

/// Whether all four functions agree with `disk`.
pub open spec fn agrees<
    E: Fn(&String) -> bool,
    R: Fn(&String) -> Option<String>,
    L: Fn(&String) -> Listing,
    N: Fn(&String, &String) -> bool,
>(exist_test: E, read: R, list: L, newer: N, disk: Disk) -> bool {
    decides(exist_test, disk.present) && reads(read, disk.contents) && lists(list, disk.entries)
        && compares(newer, disk.newer)
}

/// Whether all four functions may be asked about every path.
pub open spec fn askable<
    E: Fn(&String) -> bool,
    R: Fn(&String) -> Option<String>,
    L: Fn(&String) -> Listing,
    N: Fn(&String, &String) -> bool,
>(exist_test: E, read: R, list: L, newer: N) -> bool {
    total(exist_test) && readable(read) && listable_by(list) && comparable(newer)
}

/// `read` gave an answer with the text `answer` when asked about a path
/// with the characters `path`.
pub open spec fn read_answered<R: Fn(&String) -> Option<String>>(
    read: R,
    path: Seq<char>,
    answer: Option<Seq<char>>,
) -> bool {
    exists|s: String, given: Option<String>|
        s@ == path && opt_text(given) == answer && #[trigger] read.ensures((&s,), given)
}

/// `list` gave an answer with the texts `answer` when asked about a path
/// with the characters `path`.
pub open spec fn list_answered<L: Fn(&String) -> Listing>(
    list: L,
    path: Seq<char>,
    answer: ListingView,
) -> bool {
    exists|s: String, given: Listing|
        s@ == path && given@ == answer && #[trigger] list.ensures((&s,), given)
}

/// `newer` gave `answer` when asked about two paths with the characters
/// `one` and `two`.
pub open spec fn newer_answered<N: Fn(&String, &String) -> bool>(
    newer: N,
    one: Seq<char>,
    two: Seq<char>,
    answer: bool,
) -> bool {
    exists|a: String, b: String|
        a@ == one && b@ == two && #[trigger] newer.ensures((&a, &b), answer)
}

} // verus!
