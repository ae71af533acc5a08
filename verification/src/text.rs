//! Character-level helpers shared by the rest of the library.
//!
//! Every string the launcher handles is modelled by its sequence of
//! characters (`s@`), and every list of strings by the sequence of those
//! sequences (`texts`).

use vstd::prelude::*;

verus! {

/// `String::push` of the standard library appends one character to the end
/// of the string and leaves the characters before it as they were.
pub assume_specification[ String::push ](s: &mut String, ch: char)
    ensures
        final(s)@ == old(s)@.push(ch),
;

/// The character sequences of a list of strings.
pub open spec fn texts(list: Seq<String>) -> Seq<Seq<char>> {
    list.map_values(|s: String| s@)
}

/// The character sequence of an optional string.
pub open spec fn opt_text(value: Option<String>) -> Option<Seq<char>> {
    match value {
        Some(s) => Some(s@),
        None => None,
    }
}

/// The five ASCII whitespace characters that separate tokens.
pub open spec fn is_space(c: char) -> bool {
    c == ' ' || c == '\t' || c == '\n' || c == '\r' || c == '\x0C'
}

/// `true` for a lowercase ASCII letter.
pub open spec fn is_lower(c: char) -> bool {
    'a' <= c && c <= 'z'
}

/// `true` for an ASCII decimal digit.
pub open spec fn is_digit(c: char) -> bool {
    '0' <= c && c <= '9'
}

/// Whether `s` begins with `prefix`.
pub open spec fn has_prefix(s: Seq<char>, prefix: Seq<char>) -> bool {
    prefix.len() <= s.len() && s.take(prefix.len() as int) == prefix
}

/// Whether `s` ends with `suffix`.
pub open spec fn has_suffix(s: Seq<char>, suffix: Seq<char>) -> bool {
    suffix.len() <= s.len() && s.skip(s.len() - suffix.len()) == suffix
}

/// The index of the first character at or after `start` that equals
/// `wanted`, or `s.len()` where there is none.
pub open spec fn index_of_char(s: Seq<char>, start: int, wanted: char) -> int
    decreases s.len() - start,
{
    if start < 0 || start >= s.len() {
        s.len() as int
    } else if s[start] == wanted {
        start
    } else {
        index_of_char(s, start + 1, wanted)
    }
}

/// The index of the first character at or after `start` whose being
/// whitespace equals `space`, or `s.len()` where there is none.
pub open spec fn index_of_space(s: Seq<char>, start: int, space: bool) -> int
    decreases s.len() - start,
{
    if start < 0 || start >= s.len() {
        s.len() as int
    } else if is_space(s[start]) == space {
        start
    } else {
        index_of_space(s, start + 1, space)
    }
}

/// `index_of_char` lies between `start` and the end, points at the wanted
/// character where it lies before the end, and passes over no wanted
/// character on its way.
pub proof fn lemma_index_of_char_bounds(s: Seq<char>, start: int, wanted: char)
    requires
        0 <= start <= s.len(),
    ensures
        start <= index_of_char(s, start, wanted) <= s.len(),
        index_of_char(s, start, wanted) < s.len() ==> s[index_of_char(s, start, wanted)] == wanted,
        forall|k: int| start <= k < index_of_char(s, start, wanted) ==> s[k] != wanted,
    decreases s.len() - start,
{
    if start < s.len() && s[start] != wanted {
        lemma_index_of_char_bounds(s, start + 1, wanted);
    }
}

/// `index_of_space` lies between `start` and the end, points at a character
/// of the wanted sort where it lies before the end, and passes over none of
/// that sort on its way.
pub proof fn lemma_index_of_space_bounds(s: Seq<char>, start: int, space: bool)
    requires
        0 <= start <= s.len(),
    ensures
        start <= index_of_space(s, start, space) <= s.len(),
        index_of_space(s, start, space) < s.len() ==> is_space(s[index_of_space(s, start, space)])
            == space,
        forall|k: int| start <= k < index_of_space(s, start, space) ==> is_space(s[k]) != space,
    decreases s.len() - start,
{
    if start < s.len() && is_space(s[start]) != space {
        lemma_index_of_space_bounds(s, start + 1, space);
    }
}

/// The character sequences of a list with one more string at its end.
pub proof fn lemma_texts_push(list: Seq<String>, s: String)
    ensures
        texts(list.push(s)) == texts(list).push(s@),
{
    assert(texts(list.push(s)) =~= texts(list).push(s@));
}

/// The empty list has no character sequences.
pub proof fn lemma_texts_empty()
    ensures
        texts(Seq::<String>::empty()) == Seq::<Seq<char>>::empty(),
{
    assert(texts(Seq::<String>::empty()) =~= Seq::<Seq<char>>::empty());
}

/// The characters of `s`, in order.
pub fn chars_of(s: &str) -> (v: Vec<char>)
    ensures
        v@ == s@,
{
    let mut v: Vec<char> = Vec::new();
    for c in it: s.chars()
        invariant
            it.seq() == s@,
            v@ == it.seq().take(it.index()),
    {
        v.push(c);
    }
    v
}

/// The string made of the characters `v[from..to]`.
pub fn text_between(v: &Vec<char>, from: usize, to: usize) -> (s: String)
    requires
        from <= to <= v.len(),
    ensures
        s@ == v@.subrange(from as int, to as int),
{
    let mut s = String::new();
    let mut i: usize = from;
    while i < to
        invariant
            from <= i <= to <= v.len(),
            s@ == v@.subrange(from as int, i as int),
        decreases to - i,
    {
        s.push(v[i]);
        assert(v@.subrange(from as int, i + 1) =~= v@.subrange(from as int, i as int).push(
            v@[i as int],
        ));
        i += 1;
    }
    s
}

/// The string made of the characters of `v`.
pub fn text_of(v: &Vec<char>) -> (s: String)
    ensures
        s@ == v@,
{
    let s = text_between(v, 0, v.len());
    assert(v@.subrange(0, v.len() as int) =~= v@);
    s
}

/// Whether two strings hold the same characters.
pub fn same_text(a: &str, b: &str) -> (r: bool)
    ensures
        r == (a@ == b@),
{
    let x = chars_of(a);
    let y = chars_of(b);
    if x.len() != y.len() {
        return false;
    }
    let mut i: usize = 0;
    while i < x.len()
        invariant
            i <= x.len(),
            x.len() == y.len(),
            x@ == a@,
            y@ == b@,
            forall|k: int| 0 <= k < i ==> x@[k] == y@[k],
        decreases x.len() - i,
    {
        if x[i] != y[i] {
            return false;
        }
        i += 1;
    }
    assert(x@ =~= y@);
    true
}

/// Whether `s` begins with `prefix`.
pub fn begins_with(s: &str, prefix: &str) -> (r: bool)
    ensures
        r == has_prefix(s@, prefix@),
{
    let x = chars_of(s);
    let y = chars_of(prefix);
    if y.len() > x.len() {
        return false;
    }
    let mut i: usize = 0;
    while i < y.len()
        invariant
            i <= y.len() <= x.len(),
            x@ == s@,
            y@ == prefix@,
            forall|k: int| 0 <= k < i ==> x@[k] == y@[k],
        decreases y.len() - i,
    {
        if x[i] != y[i] {
            assert(x@.take(y.len() as int)[i as int] != y@[i as int]);
            return false;
        }
        i += 1;
    }
    assert(x@.take(y.len() as int) =~= y@);
    true
}

/// Whether `s` ends with `suffix`.
pub fn ends_with(s: &str, suffix: &str) -> (r: bool)
    ensures
        r == has_suffix(s@, suffix@),
{
    let x = chars_of(s);
    let y = chars_of(suffix);
    if y.len() > x.len() {
        return false;
    }
    let shift: usize = x.len() - y.len();
    let mut i: usize = 0;
    while i < y.len()
        invariant
            i <= y.len() <= x.len(),
            shift == x.len() - y.len(),
            x@ == s@,
            y@ == suffix@,
            forall|k: int| 0 <= k < i ==> x@[shift + k] == y@[k],
        decreases y.len() - i,
    {
        if x[shift + i] != y[i] {
            assert(x@.skip(shift as int)[i as int] != y@[i as int]);
            return false;
        }
        i += 1;
    }
    assert(x@.skip(shift as int) =~= y@);
    true
}

/// `base` followed by `tail`.
pub fn concat(base: &str, tail: &str) -> (s: String)
    ensures
        s@ == base@ + tail@,
{
    let mut s = base.to_owned();
    s.append(tail);
    s
}

/// Appends a copy of `s` to `list`.
pub fn push_text(list: &mut Vec<String>, s: &str)
    ensures
        texts(final(list)@) == texts(old(list)@).push(s@),
        final(list)@.len() == old(list)@.len() + 1,
{
    let owned = s.to_owned();
    proof {
        lemma_texts_push(list@, owned);
    }
    list.push(owned);
}

/// Appends copies of `more[from..]` to `list`.
pub fn extend_texts_from(list: &mut Vec<String>, more: &Vec<String>, from: usize)
    requires
        from <= more.len(),
    ensures
        texts(final(list)@) == texts(old(list)@) + texts(more@).skip(from as int),
{
    let mut i: usize = from;
    assert(texts(list@) =~= texts(old(list)@) + texts(more@).subrange(from as int, i as int));
    while i < more.len()
        invariant
            from <= i <= more.len(),
            texts(list@) == texts(old(list)@) + texts(more@).subrange(from as int, i as int),
        decreases more.len() - i,
    {
        let ghost before = texts(list@);
        push_text(list, more[i].as_str());
        assert(texts(more@).subrange(from as int, i + 1) =~= texts(more@).subrange(
            from as int,
            i as int,
        ).push(more@[i as int]@));
        assert(before.push(more@[i as int]@) =~= texts(old(list)@) + texts(more@).subrange(
            from as int,
            i + 1,
        ));
        i += 1;
    }
    assert(texts(more@).subrange(from as int, more.len() as int) =~= texts(more@).skip(
        from as int,
    ));
}

/// Appends copies of all of `more` to `list`.
pub fn extend_texts(list: &mut Vec<String>, more: &Vec<String>)
    ensures
        texts(final(list)@) == texts(old(list)@) + texts(more@),
{
    extend_texts_from(list, more, 0);
    assert(texts(more@).skip(0) =~= texts(more@));
}

/// A copy of `list`.
pub fn copy_texts(list: &Vec<String>) -> (r: Vec<String>)
    ensures
        texts(r@) == texts(list@),
{
    let mut r: Vec<String> = Vec::new();
    proof {
        lemma_texts_empty();
    }
    extend_texts(&mut r, list);
    assert(Seq::<Seq<char>>::empty() + texts(list@) =~= texts(list@));
    r
}

/// Whether some entry of `list` holds the characters of `s`.
pub fn has_text(list: &Vec<String>, s: &str) -> (r: bool)
    ensures
        r == texts(list@).contains(s@),
{
    let mut i: usize = 0;
    while i < list.len()
        invariant
            i <= list.len(),
            forall|k: int| 0 <= k < i ==> texts(list@)[k] != s@,
        decreases list.len() - i,
    {
        if same_text(list[i].as_str(), s) {
            assert(texts(list@)[i as int] == s@);
            return true;
        }
        i += 1;
    }
    false
}

} // verus!
