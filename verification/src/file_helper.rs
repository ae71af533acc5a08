//! Finding a file by name along a list of directories, with the test for
//! existence left to the caller.

use vstd::prelude::*;
use crate::paths::{join, joined, path_list, split_paths, Platform};
use crate::text::{opt_text, texts};

verus! {

/// `test` gave `answer` when asked about a path with the characters `path`.
pub open spec fn answered<T: Fn(&String) -> bool>(test: T, path: Seq<char>, answer: bool) -> bool {
    exists|s: String| s@ == path && #[trigger] test.ensures((&s,), answer)
}

/// `test` never answers otherwise than `present` says: it is a faithful
/// test for the paths that `present` holds.
pub open spec fn decides<T: Fn(&String) -> bool>(
    test: T,
    present: spec_fn(Seq<char>) -> bool,
) -> bool {
    forall|s: String, answer: bool| #[trigger] test.ensures((&s,), answer) ==> answer == present(s@)
}

/// Whether `test` may be asked about every path.
pub open spec fn total<T: Fn(&String) -> bool>(test: T) -> bool {
    forall|s: &String| #[trigger] test.requires((s,))
}

/// The places where `file` is looked for: each directory of the list
/// `path`, in order, with `file` joined to it.
pub open spec fn candidates(
    platform: Platform,
    file: Seq<char>,
    path: Seq<char>,
) -> Seq<Seq<char>> {
    path_list(platform, path).map_values(|dir: Seq<char>| joined(platform, dir, file))
}

/// The first of `places[from..]` that `present` holds.
pub open spec fn first_present(
    places: Seq<Seq<char>>,
    from: int,
    present: spec_fn(Seq<char>) -> bool,
) -> Option<Seq<char>>
    decreases places.len() - from,
{
    if from < 0 || from >= places.len() {
        None
    } else if present(places[from]) {
        Some(places[from])
    } else {
        first_present(places, from + 1, present)
    }
}

/// Where `file` is found along the optional list `path`: the first
/// candidate that `present` holds.
pub open spec fn searched(
    platform: Platform,
    file: Seq<char>,
    path: Option<Seq<char>>,
    present: spec_fn(Seq<char>) -> bool,
) -> Option<Seq<char>> {
    match path {
        Some(list) => first_present(candidates(platform, file, list), 0, present),
        None => None,
    }
}

/// What a search may end with, told by the answers of `test` alone: the
/// first candidate that it accepted after refusing every earlier one, or
/// nothing after refusing all, or nothing for want of a list.
pub open spec fn search_outcome<T: Fn(&String) -> bool>(
    platform: Platform,
    test: T,
    file: Seq<char>,
    path: Option<Seq<char>>,
    found: Option<Seq<char>>,
) -> bool {
    match path {
        None => found is None,
        Some(list) => outcome_among(test, candidates(platform, file, list), found),
    }
}

/// What a search among `places` may end with.
pub open spec fn outcome_among<T: Fn(&String) -> bool>(
    test: T,
    places: Seq<Seq<char>>,
    found: Option<Seq<char>>,
) -> bool {
    &&& found is Some ==> exists|i: int| #[trigger] accepted_at(test, places, found->0, i)
    &&& found is None ==> refused_before(test, places, places.len() as int)
}

/// `place` is `places[i]`, which `test` accepted after refusing each place
/// before it.
pub open spec fn accepted_at<T: Fn(&String) -> bool>(
    test: T,
    places: Seq<Seq<char>>,
    place: Seq<char>,
    i: int,
) -> bool {
    0 <= i < places.len() && place == places[i] && answered(test, places[i], true)
        && refused_before(test, places, i)
}

/// `test` refused each of `places[..end]`.
pub open spec fn refused_before<T: Fn(&String) -> bool>(
    test: T,
    places: Seq<Seq<char>>,
    end: int,
) -> bool {
    forall|j: int| 0 <= j < end ==> answered(test, #[trigger] places[j], false)
}

/// A faithful test that refused `places[from..end]` leaves the first
/// present place to be looked for from `end` on.
pub proof fn lemma_refused_skipped<T: Fn(&String) -> bool>(
    test: T,
    places: Seq<Seq<char>>,
    from: int,
    end: int,
    present: spec_fn(Seq<char>) -> bool,
)
    requires
        0 <= from <= end <= places.len(),
        decides(test, present),
        refused_before(test, places, end),
    ensures
        first_present(places, from, present) == first_present(places, end, present),
    decreases end - from,
{
    if from < end {
        assert(answered(test, places[from], false));
        lemma_refused_skipped(test, places, from + 1, end, present);
    }
}

/// A search that ended as `search_outcome` allows found what a faithful
/// test must find.
pub proof fn lemma_outcome_is_searched<T: Fn(&String) -> bool>(
    platform: Platform,
    test: T,
    file: Seq<char>,
    path: Option<Seq<char>>,
    found: Option<Seq<char>>,
    present: spec_fn(Seq<char>) -> bool,
)
    requires
        search_outcome(platform, test, file, path, found),
        decides(test, present),
    ensures
        found == searched(platform, file, path, present),
{
    if let Some(list) = path {
        let places = candidates(platform, file, list);
        match found {
            Some(place) => {
                let i = choose|i: int| #[trigger] accepted_at(test, places, place, i);
                lemma_refused_skipped(test, places, 0, i, present);
            },
            None => {
                lemma_refused_skipped(test, places, 0, places.len() as int, present);
            },
        }
    }
}

/// Looks for `file` in each directory of the list `path`, in order, and
/// returns the first joined path that `test` accepts.
///
/// Nothing is found where there is no list or `test` refuses every
/// candidate. Against a faithful test the result is `searched`.
pub fn find_from_path<T: Fn(&String) -> bool>(
    platform: Platform,
    file: &str,
    path: &Option<String>,
    test: T,
) -> (r:
    Option<String>)
    requires
        total(test),
    ensures
        search_outcome(platform, test, file@, opt_text(*path), opt_text(r)),
        forall|present: spec_fn(Seq<char>) -> bool| #[trigger]
            decides(
                test,
                present,
            ) ==> opt_text(r) == searched(platform, file@, opt_text(*path), present),
{
    let mut result: Option<String> = None;
    if let Some(list) = path {
        let dirs = split_paths(platform, list.as_str());
        let ghost places = candidates(platform, file@, list@);
        let mut i: usize = 0;
        while i < dirs.len()
            invariant_except_break
                refused_before(test, places, i as int),
                result is None,
            invariant
                i <= dirs.len(),
                total(test),
                texts(dirs@) == path_list(platform, list@),
                places == candidates(platform, file@, list@),
                places.len() == dirs.len(),
            ensures
                search_outcome(platform, test, file@, Some(list@), opt_text(result)),
            decreases dirs.len() - i,
        {
            let place = join(platform, dirs[i].as_str(), file);
            assert(place@ == places[i as int]) by {
                assert(texts(dirs@)[i as int] == dirs@[i as int]@);
            }
            if test(&place) {
                assert(answered(test, places[i as int], true));
                result = Some(place);
                assert(accepted_at(test, places, opt_text(result)->0, i as int));
                break;
            }
            assert(answered(test, places[i as int], false));
            i += 1;
        }
    }
    proof {
        assert forall|present: spec_fn(Seq<char>) -> bool| #[trigger]
            decides(test, present) implies opt_text(result) == searched(
            platform,
            file@,
            opt_text(*path),
            present,
        ) by {
            lemma_outcome_is_searched(
                platform,
                test,
                file@,
                opt_text(*path),
                opt_text(result),
                present,
            );
        }
    }
    result
}

/// The first of `places[from..]` that `present` holds is one of them, is
/// present, and has nothing present before it; there is none exactly where
/// none of them is present.
pub proof fn lemma_first_present(
    places: Seq<Seq<char>>,
    from: int,
    present: spec_fn(Seq<char>) -> bool,
)
    requires
        0 <= from <= places.len(),
    ensures
        match first_present(places, from, present) {
            Some(place) => exists|i: int|
                from <= i < places.len() && place == #[trigger] places[i] && present(place)
                    && forall|j: int| from <= j < i ==> !present(#[trigger] places[j]),
            None => forall|j: int| from <= j < places.len() ==> !present(#[trigger] places[j]),
        },
    decreases places.len() - from,
{
    if from < places.len() {
        if present(places[from]) {
            assert(places[from] == places[from]);
        } else {
            lemma_first_present(places, from + 1, present);
            if let Some(place) = first_present(places, from + 1, present) {
                let i = choose|i: int|
                    from + 1 <= i < places.len() && place == #[trigger] places[i] && present(place)
                        && forall|j: int| from + 1 <= j < i ==> !present(#[trigger] places[j]);
                assert(from <= i < places.len() && place == places[i]);
            }
        }
    }
}

/// A search finds the first candidate in the order of the list that is
/// present, and nothing where no candidate is present or there is no list.
pub proof fn law_search_finds_first_match(
    platform: Platform,
    file: Seq<char>,
    path: Option<Seq<char>>,
    present: spec_fn(Seq<char>) -> bool,
)
    ensures
        path is None ==> searched(platform, file, path, present) is None,
        path is Some ==> match searched(platform, file, path, present) {
            Some(place) => exists|i: int|
                0 <= i < candidates(
                    platform,
                    file,
                    path->0,
                ).len() && place == #[trigger] candidates(
                    platform,
                    file,
                    path->0,
                )[i] && present(place) && forall|j: int|
                    0 <= j < i ==> !present(#[trigger] candidates(platform, file, path->0)[j]),
            None => forall|j: int|
                0 <= j < candidates(platform, file, path->0).len() ==> !present(
                    #[trigger] candidates(platform, file, path->0)[j],
                ),
        },
{
    if let Some(list) = path {
        lemma_first_present(candidates(platform, file, list), 0, present);
    }
}

} // verus!
