//! Splitting, replacing and prefix tests on the strings that come from the
//! operating system: command-line arguments and environment values.

use vstd::prelude::*;
use crate::text::{
    chars_of, has_prefix, index_of_char, index_of_space, is_space, lemma_index_of_char_bounds,
    lemma_index_of_space_bounds, text_between, text_of,
};

verus! {

/// The pieces of `s[start..]` between occurrences of `separator`. A piece
/// may be empty; nothing follows a separator that ends the string.
pub open spec fn pieces_from(s: Seq<char>, separator: char, start: int) -> Seq<Seq<char>>
    decreases s.len() - start,
{
    if start < 0 || start >= s.len() {
        Seq::empty()
    } else {
        let end = index_of_char(s, start, separator);
        proof {
            lemma_index_of_char_bounds(s, start, separator);
        }
        if end >= s.len() {
            seq![s.subrange(start, end)]
        } else {
            seq![s.subrange(start, end)] + pieces_from(s, separator, end + 1)
        }
    }
}

/// The pieces of `s` between occurrences of `separator`.
pub open spec fn pieces(s: Seq<char>, separator: char) -> Seq<Seq<char>> {
    pieces_from(s, separator, 0)
}

/// The maximal runs of non-whitespace characters of `s[start..]`, in order.
pub open spec fn words_from(s: Seq<char>, start: int) -> Seq<Seq<char>>
    decreases s.len() - start,
{
    if start < 0 || start >= s.len() {
        Seq::empty()
    } else {
        let begin = index_of_space(s, start, false);
        let end = index_of_space(s, begin, true);
        proof {
            lemma_index_of_space_bounds(s, start, false);
            lemma_index_of_space_bounds(s, begin, true);
        }
        if begin >= s.len() {
            Seq::empty()
        } else {
            seq![s.subrange(begin, end)] + words_from(s, end)
        }
    }
}

/// The maximal runs of non-whitespace characters of `s`, in order.
pub open spec fn words(s: Seq<char>) -> Seq<Seq<char>> {
    words_from(s, 0)
}

/// `s` with every occurrence of the character `from` turned into `to`.
pub open spec fn char_replaced(s: Seq<char>, from: char, to: char) -> Seq<char> {
    s.map_values(
        |c: char|
            if c == from {
                to
            } else {
                c
            },
    )
}

/// `s[start..]` with the occurrences of the non-empty text `from` replaced
/// by `to`, found from left to right without overlap.
pub open spec fn replaced_from(s: Seq<char>, start: int, from: Seq<char>, to: Seq<char>) -> Seq<
    char,
>
    decreases s.len() - start,
{
    if start < 0 || from.len() == 0 || start + from.len() > s.len() {
        s.skip(start)
    } else if s.subrange(start, start + from.len()) == from {
        to + replaced_from(s, start + from.len(), from, to)
    } else {
        seq![s[start]] + replaced_from(s, start + 1, from, to)
    }
}

/// `s` with the occurrences of `from` replaced by `to`, found from left to
/// right without overlap. An empty `from` occurs nowhere.
pub open spec fn replaced(s: Seq<char>, from: Seq<char>, to: Seq<char>) -> Seq<char> {
    replaced_from(s, 0, from, to)
}

/// Walks the pieces of a string between occurrences of one separator.
pub struct OsSplitIter {
    separator: char,
    i: usize,
    vec: Vec<char>,
}

/// Walks the whitespace-separated words of a string.
pub struct OsWhitespaceSplitIter {
    i: usize,
    vec: Vec<char>,
}

impl OsSplitIter {
    /// The pieces that `next` has not handed out yet.
    pub closed spec fn remaining(&self) -> Seq<Seq<char>> {
        pieces_from(self.vec@, self.separator, self.i as int)
    }

    /// Hands out the next piece, or `None` when all were handed out.
    pub fn next(&mut self) -> (r: Option<String>)
        ensures
            old(self).remaining().len() == 0 ==> r is None && final(self).remaining().len() == 0,
            old(self).remaining().len() > 0 ==> r is Some && r->0@ == old(self).remaining()[0]
                && final(self).remaining() == old(self).remaining().skip(1),
    {
        if self.i >= self.vec.len() {
            return None;
        }
        let start = self.i;
        let mut end = start;
        while end < self.vec.len() && self.vec[end] != self.separator
            invariant
                start <= end <= self.vec.len(),
                start < self.vec.len(),
                index_of_char(self.vec@, start as int, self.separator) == index_of_char(
                    self.vec@,
                    end as int,
                    self.separator,
                ),
            decreases self.vec.len() - end,
        {
            end += 1;
        }
        let piece = text_between(&self.vec, start, end);
        let ghost head = seq![self.vec@.subrange(start as int, end as int)];
        if end < self.vec.len() {
            proof {
                let rest = pieces_from(self.vec@, self.separator, end + 1);
                assert(old(self).remaining() == head + rest);
                assert((head + rest).skip(1) =~= rest);
            }
            self.i = end + 1;
        } else {
            proof {
                assert(old(self).remaining() == head);
                assert(head.skip(1) =~= Seq::<Seq<char>>::empty());
            }
            self.i = end;
        }
        Some(piece)
    }
}

impl OsWhitespaceSplitIter {
    /// The words that `next` has not handed out yet.
    pub closed spec fn remaining(&self) -> Seq<Seq<char>> {
        words_from(self.vec@, self.i as int)
    }

    /// Hands out the next word, or `None` when all were handed out.
    pub fn next(&mut self) -> (r: Option<String>)
        ensures
            old(self).remaining().len() == 0 ==> r is None && final(self).remaining().len() == 0,
            old(self).remaining().len() > 0 ==> r is Some && r->0@ == old(self).remaining()[0]
                && final(self).remaining() == old(self).remaining().skip(1),
    {
        if self.i >= self.vec.len() {
            return None;
        }
        let first = self.i;
        let mut begin = first;
        while begin < self.vec.len() && is_whitespace(self.vec[begin])
            invariant
                first <= begin <= self.vec.len(),
                index_of_space(self.vec@, first as int, false) == index_of_space(
                    self.vec@,
                    begin as int,
                    false,
                ),
            decreases self.vec.len() - begin,
        {
            begin += 1;
        }
        if begin >= self.vec.len() {
            self.i = begin;
            return None;
        }
        let mut end = begin;
        while end < self.vec.len() && !is_whitespace(self.vec[end])
            invariant
                begin <= end <= self.vec.len(),
                index_of_space(self.vec@, begin as int, true) == index_of_space(
                    self.vec@,
                    end as int,
                    true,
                ),
            decreases self.vec.len() - end,
        {
            end += 1;
        }
        let word = text_between(&self.vec, begin, end);
        proof {
            let rest = words_from(self.vec@, end as int);
            assert(old(self).remaining() == seq![self.vec@.subrange(begin as int, end as int)]
                + rest);
            assert((seq![self.vec@.subrange(begin as int, end as int)] + rest).skip(1) =~= rest);
        }
        self.i = end;
        Some(word)
    }
}

/// Whether `c` is one of the five ASCII whitespace characters.
pub fn is_whitespace(c: char) -> (r: bool)
    ensures
        r == is_space(c),
{
    c == ' ' || c == '\t' || c == '\n' || c == '\r' || c == '\x0C'
}

/// Text operations on strings of the operating system.
pub trait OsStringExt {
    /// The characters of the string.
    spec fn text(&self) -> Seq<char>;

    /// A copy in which the occurrences of `from` are replaced by `to`.
    fn replace_str(&self, from: &String, to: &String) -> (r: String)
        ensures
            r@ == replaced(self.text(), from@, to@),
    ;

    /// A copy in which each character `from` is turned into `to`.
    fn replace(&self, from: char, to: char) -> (r: String)
        ensures
            r@ == char_replaced(self.text(), from, to),
    ;

    /// A walk over the pieces between occurrences of `separator`.
    fn split(&self, separator: char) -> (r: OsSplitIter)
        ensures
            r.remaining() == pieces(self.text(), separator),
    ;

    /// The first `index` characters and the rest; the whole string and the
    /// empty one where `index` is not inside the string.
    fn split_at(&self, index: usize) -> (r: (String, String))
        ensures
            index >= self.text().len() ==> r.0@ == self.text() && r.1@ == Seq::<char>::empty(),
            index < self.text().len() ==> r.0@ == self.text().take(index as int) && r.1@
                == self.text().skip(index as int),
    ;

    /// A walk over the whitespace-separated words.
    fn split_ascii_whitespace(&self) -> (r: OsWhitespaceSplitIter)
        ensures
            r.remaining() == words(self.text()),
    ;

    /// Whether the string begins with `string`.
    fn starts_with(&self, string: String) -> (r: bool)
        ensures
            r == has_prefix(self.text(), string@),
    ;
}

/// Whether `v[at..]` begins with `pattern`.
fn matches_at(v: &Vec<char>, at: usize, pattern: &Vec<char>) -> (r: bool)
    requires
        at + pattern.len() <= v.len(),
    ensures
        r == (v@.subrange(at as int, at + pattern.len()) == pattern@),
{
    let mut k: usize = 0;
    while k < pattern.len()
        invariant
            k <= pattern.len(),
            at + pattern.len() <= v.len(),
            forall|j: int| 0 <= j < k ==> v@[at + j] == pattern@[j],
        decreases pattern.len() - k,
    {
        if v[at + k] != pattern[k] {
            assert(v@.subrange(at as int, at + pattern.len())[k as int] != pattern@[k as int]);
            return false;
        }
        k += 1;
    }
    assert(v@.subrange(at as int, at + pattern.len()) =~= pattern@);
    true
}

impl OsStringExt for String {
    open spec fn text(&self) -> Seq<char> {
        self@
    }

    fn replace_str(&self, from: &String, to: &String) -> (r: String) {
        let v = chars_of(self.as_str());
        let pattern = chars_of(from.as_str());
        let mut out = String::new();
        let mut i: usize = 0;
        if pattern.len() == 0 {
            assert(v@.skip(0) =~= v@);
            return text_of(&v);
        }
        assert(out@ + replaced_from(v@, 0, pattern@, to@) =~= replaced(v@, pattern@, to@));
        while i < v.len() && pattern.len() <= v.len() - i
            invariant
                i <= v.len(),
                pattern.len() > 0,
                pattern@ == from@,
                out@ + replaced_from(v@, i as int, pattern@, to@) == replaced(
                    v@,
                    pattern@,
                    to@,
                ),
            decreases v.len() - i,
        {
            let ghost before = out@;
            if matches_at(&v, i, &pattern) {
                out.append(to.as_str());
                assert(before + (to@ + replaced_from(
                    v@,
                    i + pattern.len(),
                    pattern@,
                    to@,
                )) =~= (before + to@) + replaced_from(v@, i + pattern.len(), pattern@, to@));
                i += pattern.len();
            } else {
                out.push(v[i]);
                assert(before + (seq![v@[i as int]] + replaced_from(v@, i + 1, pattern@, to@))
                    =~= before.push(v@[i as int]) + replaced_from(v@, i + 1, pattern@, to@));
                i += 1;
            }
        }
        let tail = text_between(&v, i, v.len());
        assert(v@.subrange(i as int, v.len() as int) =~= v@.skip(i as int));
        out.append(tail.as_str());
        out
    }

    fn replace(&self, from: char, to: char) -> (r: String) {
        let v = chars_of(self.as_str());
        let mut out = String::new();
        let mut i: usize = 0;
        while i < v.len()
            invariant
                i <= v.len(),
                out@ == char_replaced(v@.take(i as int), from, to),
            decreases v.len() - i,
        {
            let c = v[i];
            if c == from {
                out.push(to);
            } else {
                out.push(c);
            }
            assert(char_replaced(v@.take(i + 1), from, to) =~= char_replaced(
                v@.take(i as int),
                from,
                to,
            ).push(
                if c == from {
                    to
                } else {
                    c
                },
            ));
            i += 1;
        }
        assert(v@.take(v.len() as int) =~= v@);
        out
    }

    fn split(&self, separator: char) -> (r: OsSplitIter) {
        OsSplitIter { separator, i: 0, vec: chars_of(self.as_str()) }
    }

    fn split_at(&self, index: usize) -> (r: (String, String)) {
        let v = chars_of(self.as_str());
        if index >= v.len() {
            (text_of(&v), String::new())
        } else {
            let left = text_between(&v, 0, index);
            let right = text_between(&v, index, v.len());
            assert(v@.subrange(0, index as int) =~= v@.take(index as int));
            assert(v@.subrange(index as int, v.len() as int) =~= v@.skip(index as int));
            (left, right)
        }
    }

    fn split_ascii_whitespace(&self) -> (r: OsWhitespaceSplitIter) {
        OsWhitespaceSplitIter { i: 0, vec: chars_of(self.as_str()) }
    }

    fn starts_with(&self, string: String) -> (r: bool) {
        crate::text::begins_with(self.as_str(), string.as_str())
    }
}

/// All the pieces of `s` between occurrences of `separator`, as a list.
pub fn split_all(s: &str, separator: char) -> (r: Vec<String>)
    ensures
        crate::text::texts(r@) == pieces(s@, separator),
{
    let mut it = OsSplitIter { separator, i: 0, vec: chars_of(s) };
    let mut out: Vec<String> = Vec::new();
    proof {
        crate::text::lemma_texts_empty();
    }
    loop
        invariant
            crate::text::texts(out@) + it.remaining() == pieces(s@, separator),
        decreases it.remaining().len(),
    {
        let ghost before = crate::text::texts(out@);
        let ghost left = it.remaining();
        match it.next() {
            Some(piece) => {
                proof {
                    crate::text::lemma_texts_push(out@, piece);
                    assert(before.push(piece@) + left.skip(1) =~= before + left);
                }
                out.push(piece);
            },
            None => {
                assert(before + left =~= before);
                return out;
            },
        }
    }
}

/// All the whitespace-separated words of `s`, as a list.
pub fn split_words(s: &str) -> (r: Vec<String>)
    ensures
        crate::text::texts(r@) == words(s@),
{
    let mut it = OsWhitespaceSplitIter { i: 0, vec: chars_of(s) };
    let mut out: Vec<String> = Vec::new();
    proof {
        crate::text::lemma_texts_empty();
    }
    loop
        invariant
            crate::text::texts(out@) + it.remaining() == words(s@),
        decreases it.remaining().len(),
    {
        let ghost before = crate::text::texts(out@);
        let ghost left = it.remaining();
        match it.next() {
            Some(word) => {
                proof {
                    crate::text::lemma_texts_push(out@, word);
                    assert(before.push(word@) + left.skip(1) =~= before + left);
                }
                out.push(word);
            },
            None => {
                assert(before + left =~= before);
                return out;
            },
        }
    }
}

} // verus!
