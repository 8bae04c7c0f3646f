//! Character-level operations on strings.
//!
//! Every operation is specified over `Seq<char>`, the view of a string, and the
//! executable functions are proved against those specifications.

use vstd::prelude::*;

verus! {

/// `String::push` of the standard library: the character is appended to the
/// text, and nothing else of the text changes.
pub assume_specification[ String::push ](s: &mut String, ch: char)
    ensures
        final(s)@ == old(s)@.push(ch),
;

/// `p` is a prefix of `s`.
pub open spec fn starts_with(s: Seq<char>, p: Seq<char>) -> bool {
    p.len() <= s.len() && s.subrange(0, p.len() as int) == p
}

/// `p` is a suffix of `s`.
pub open spec fn ends_with(s: Seq<char>, p: Seq<char>) -> bool {
    p.len() <= s.len() && s.subrange(s.len() - p.len(), s.len() as int) == p
}

/// `needle` stands in `s` at index `i`.
pub open spec fn occurs_at(s: Seq<char>, needle: Seq<char>, i: int) -> bool {
    0 <= i && i + needle.len() <= s.len() && s.subrange(i, i + needle.len()) == needle
}

/// `needle` stands somewhere in `s`.
pub open spec fn contains(s: Seq<char>, needle: Seq<char>) -> bool {
    exists|i: int| occurs_at(s, needle, i)
}

/// `i` is the least index at which `needle` stands in `s`.
pub open spec fn is_first_occurrence(s: Seq<char>, needle: Seq<char>, i: int) -> bool {
    occurs_at(s, needle, i) && forall|j: int| 0 <= j < i ==> !occurs_at(s, needle, j)
}

/// The least index at which `needle` stands in `s`, if it stands anywhere.
pub open spec fn first_occurrence(s: Seq<char>, needle: Seq<char>) -> Option<int> {
    if contains(s, needle) {
        Some(choose|i: int| is_first_occurrence(s, needle, i))
    } else {
        None
    }
}

/// The ASCII lower-case form of one character.
pub open spec fn lower(c: char) -> char {
    if 'A' <= c && c <= 'Z' {
        ((c as u8) + 32) as char
    } else {
        c
    }
}

/// The ASCII lower-case form of a string: same length, each letter `A`..`Z` lowered.
pub open spec fn lowercase(s: Seq<char>) -> Seq<char> {
    Seq::new(s.len(), |i: int| lower(s[i]))
}

/// White space, as Unicode's `White_Space` property lists it.
pub open spec fn is_space(c: char) -> bool {
    let n = c as u32;
    (0x09 <= n && n <= 0x0d) || n == 0x20 || n == 0x85 || n == 0xa0 || n == 0x1680 || (0x2000
        <= n && n <= 0x200a) || n == 0x2028 || n == 0x2029 || n == 0x202f || n == 0x205f || n
        == 0x3000
}

/// The number of leading white-space characters of `s`.
pub open spec fn leading_spaces(s: Seq<char>) -> nat
    decreases s.len(),
{
    if s.len() > 0 && is_space(s[0]) {
        1 + leading_spaces(s.subrange(1, s.len() as int))
    } else {
        0
    }
}

/// The number of trailing white-space characters of `s`.
pub open spec fn trailing_spaces(s: Seq<char>) -> nat
    decreases s.len(),
{
    if s.len() > 0 && is_space(s[s.len() - 1]) {
        1 + trailing_spaces(s.subrange(0, s.len() - 1))
    } else {
        0
    }
}

/// `s` without its leading and trailing white space.
pub open spec fn trim(s: Seq<char>) -> Seq<char> {
    let a = leading_spaces(s);
    let rest = s.subrange(a as int, s.len() as int);
    rest.subrange(0, rest.len() - trailing_spaces(rest))
}

/// The index of the first `c` in `s`, or the length of `s` where there is none.
pub open spec fn index_of_char(s: Seq<char>, c: char) -> nat
    decreases s.len(),
{
    if s.len() == 0 || s[0] == c {
        0
    } else {
        1 + index_of_char(s.subrange(1, s.len() as int), c)
    }
}

/// What follows the first `c` in `s`, if `c` occurs.
pub open spec fn after_first(s: Seq<char>, c: char) -> Option<Seq<char>> {
    let i = index_of_char(s, c);
    if i < s.len() {
        Some(s.subrange(i as int + 1, s.len() as int))
    } else {
        None
    }
}

/// One line without the carriage return that may end it.
pub open spec fn strip_carriage_return(line: Seq<char>) -> Seq<char> {
    if line.len() > 0 && line[line.len() - 1] == '\r' {
        line.subrange(0, line.len() - 1)
    } else {
        line
    }
}

/// The lines of `s`: the pieces between line feeds, each without a trailing
/// carriage return. A line feed that ends the text starts no further line.
pub open spec fn lines(s: Seq<char>) -> Seq<Seq<char>>
    decreases s.len(),
{
    if s.len() == 0 {
        seq![]
    } else {
        let i = index_of_char(s, '\n');
        if i < s.len() {
            seq![strip_carriage_return(s.subrange(0, i as int))] + lines(
                s.subrange(i as int + 1, s.len() as int),
            )
        } else {
            seq![strip_carriage_return(s)]
        }
    }
}

pub proof fn lemma_index_of_char(s: Seq<char>, c: char)
    ensures
        index_of_char(s, c) <= s.len(),
        index_of_char(s, c) < s.len() ==> s[index_of_char(s, c) as int] == c,
        forall|j: int| 0 <= j < index_of_char(s, c) ==> s[j] != c,
    decreases s.len(),
{
    if s.len() == 0 || s[0] == c {
    } else {
        let rest = s.subrange(1, s.len() as int);
        lemma_index_of_char(rest, c);
        assert forall|j: int| 0 <= j < index_of_char(s, c) implies s[j] != c by {
            if j > 0 {
                assert(rest[j - 1] == s[j]);
            }
        }
    }
}

pub proof fn lemma_leading_spaces(s: Seq<char>)
    ensures
        leading_spaces(s) <= s.len(),
        leading_spaces(s) < s.len() ==> !is_space(s[leading_spaces(s) as int]),
        forall|j: int| 0 <= j < leading_spaces(s) ==> is_space(s[j]),
    decreases s.len(),
{
    if s.len() > 0 && is_space(s[0]) {
        let rest = s.subrange(1, s.len() as int);
        lemma_leading_spaces(rest);
        assert forall|j: int| 0 <= j < leading_spaces(s) implies is_space(s[j]) by {
            if j > 0 {
                assert(rest[j - 1] == s[j]);
            }
        }
    }
}

pub proof fn lemma_trailing_spaces(s: Seq<char>)
    ensures
        trailing_spaces(s) <= s.len(),
        trailing_spaces(s) < s.len() ==> !is_space(s[s.len() - 1 - trailing_spaces(s)]),
        forall|j: int| s.len() - trailing_spaces(s) <= j < s.len() ==> is_space(s[j]),
    decreases s.len(),
{
    if s.len() > 0 && is_space(s[s.len() - 1]) {
        let rest = s.subrange(0, s.len() - 1);
        lemma_trailing_spaces(rest);
        assert forall|j: int| s.len() - trailing_spaces(s) <= j < s.len() implies is_space(
            s[j],
        ) by {
            if j < s.len() - 1 {
                assert(rest[j] == s[j]);
            }
        }
    }
}

/// The characters of `s`, in order.
pub fn chars_of(s: &str) -> (r: Vec<char>)
    ensures
        r@ == s@,
{
    let mut out: Vec<char> = Vec::new();
    for c in it: s.chars()
        invariant
            out@ == it.seq().take(it.index() as int),
    {
        out.push(c);
    }
    out
}

/// The string made of the characters `v[from..to]`.
pub(crate) fn string_of_range(v: &Vec<char>, from: usize, to: usize) -> (r: String)
    requires
        from <= to <= v.len(),
    ensures
        r@ == v@.subrange(from as int, to as int),
{
    let mut out = String::new();
    let mut i: usize = from;
    while i < to
        invariant
            from <= i <= to <= v.len(),
            out@ == v@.subrange(from as int, i as int),
        decreases to - i,
    {
        out.push(v[i]);
        i = i + 1;
    }
    out
}

/// The string made of the characters `v`.
pub fn string_of(v: &Vec<char>) -> (r: String)
    ensures
        r@ == v@,
{
    let r = string_of_range(v, 0, v.len());
    assert(v@.subrange(0, v.len() as int) == v@);
    r
}

/// Whether `needle` stands in `s` at index `i`.
pub fn chars_occur_at(s: &Vec<char>, needle: &Vec<char>, i: usize) -> (r: bool)
    ensures
        r == occurs_at(s@, needle@, i as int),
{
    if needle.len() > s.len() || i > s.len() - needle.len() {
        return false;
    }
    let mut k: usize = 0;
    while k < needle.len()
        invariant
            k <= needle.len(),
            i + needle.len() <= s.len(),
            forall|j: int| 0 <= j < k ==> s@[i + j] == needle@[j],
        decreases needle.len() - k,
    {
        if s[i + k] != needle[k] {
            assert(s@.subrange(i as int, i + needle.len())[k as int] == s@[i + k]);
            return false;
        }
        k = k + 1;
    }
    assert(s@.subrange(i as int, i + needle.len()) =~= needle@);
    true
}

/// The least index at which `needle` stands in `s`.
pub fn chars_find(s: &Vec<char>, needle: &Vec<char>) -> (r: Option<usize>)
    ensures
        match r {
            Some(i) => first_occurrence(s@, needle@) == Some(i as int),
            None => first_occurrence(s@, needle@) is None,
        },
{
    if needle.len() > s.len() {
        assert(!contains(s@, needle@));
        return None;
    }
    let last: usize = s.len() - needle.len();
    let mut i: usize = 0;
    loop
        invariant
            last == s.len() - needle.len(),
            i <= last,
            forall|j: int| 0 <= j < i ==> !occurs_at(s@, needle@, j),
        decreases last - i,
    {
        if chars_occur_at(s, needle, i) {
            proof {
                assert(is_first_occurrence(s@, needle@, i as int));
                let w = choose|w: int| is_first_occurrence(s@, needle@, w);
                assert(w == i);
            }
            return Some(i);
        }
        if i == last {
            assert(!contains(s@, needle@));
            return None;
        }
        i = i + 1;
    }
}

/// Whether `p` is a prefix of `s`.
pub fn starts_with_str(s: &str, p: &str) -> (r: bool)
    ensures
        r == starts_with(s@, p@),
{
    let sv = chars_of(s);
    let pv = chars_of(p);
    chars_occur_at(&sv, &pv, 0)
}

/// Whether `p` is a suffix of `s`.
pub fn ends_with_str(s: &str, p: &str) -> (r: bool)
    ensures
        r == ends_with(s@, p@),
{
    let sv = chars_of(s);
    let pv = chars_of(p);
    if pv.len() > sv.len() {
        return false;
    }
    chars_occur_at(&sv, &pv, sv.len() - pv.len())
}

/// Whether `needle` stands somewhere in `s`.
pub fn contains_str(s: &str, needle: &str) -> (r: bool)
    ensures
        r == contains(s@, needle@),
{
    let sv = chars_of(s);
    let nv = chars_of(needle);
    chars_find(&sv, &nv).is_some()
}

/// Whether two strings hold the same characters.
pub fn same_str(a: &str, b: &str) -> (r: bool)
    ensures
        r == (a@ == b@),
{
    let av = chars_of(a);
    let bv = chars_of(b);
    if av.len() != bv.len() {
        return false;
    }
    let r = chars_occur_at(&av, &bv, 0);
    assert(av@.subrange(0, av@.len() as int) == av@);
    r
}

/// The ASCII lower-case form of one character.
pub fn lower_char(c: char) -> (r: char)
    ensures
        r == lower(c),
{
    if 'A' <= c && c <= 'Z' {
        ((c as u8) + 32) as char
    } else {
        c
    }
}

/// The ASCII lower-case form of `s`.
pub fn lowercase_str(s: &str) -> (r: String)
    ensures
        r@ == lowercase(s@),
{
    let sv = chars_of(s);
    let mut out = String::new();
    let mut i: usize = 0;
    while i < sv.len()
        invariant
            i <= sv.len(),
            sv@ == s@,
            out@ == lowercase(s@).subrange(0, i as int),
        decreases sv.len() - i,
    {
        out.push(lower_char(sv[i]));
        i = i + 1;
        assert(out@ =~= lowercase(s@).subrange(0, i as int));
    }
    assert(lowercase(s@).subrange(0, sv.len() as int) =~= lowercase(s@));
    out
}

/// Whether `c` is white space.
pub fn is_space_char(c: char) -> (r: bool)
    ensures
        r == is_space(c),
{
    let n: u32 = c as u32;
    (0x09 <= n && n <= 0x0d) || n == 0x20 || n == 0x85 || n == 0xa0 || n == 0x1680 || (0x2000
        <= n && n <= 0x200a) || n == 0x2028 || n == 0x2029 || n == 0x202f || n == 0x205f || n
        == 0x3000
}

/// `s` without its leading and trailing white space.
pub fn trim_str(s: &str) -> (r: String)
    ensures
        r@ == trim(s@),
{
    let sv = chars_of(s);
    let mut a: usize = 0;
    while a < sv.len() && is_space_char(sv[a])
        invariant
            a <= sv.len(),
            forall|j: int| 0 <= j < a ==> is_space(sv@[j]),
        decreases sv.len() - a,
    {
        a = a + 1;
    }
    proof {
        lemma_leading_spaces(sv@);
        let l = leading_spaces(sv@);
        if l < a {
            assert(is_space(sv@[l as int]));
        }
        if a < l {
            assert(is_space(sv@[a as int]));
        }
        assert(l == a);
    }
    let ghost rest = sv@.subrange(a as int, sv@.len() as int);
    let mut b: usize = sv.len();
    while b > a && is_space_char(sv[b - 1])
        invariant
            a <= b <= sv.len(),
            forall|j: int| b <= j < sv.len() ==> is_space(sv@[j]),
        decreases b,
    {
        b = b - 1;
    }
    proof {
        lemma_trailing_spaces(rest);
        let t = trailing_spaces(rest);
        let n = rest.len();
        assert(forall|j: int| 0 <= j < n ==> rest[j] == sv@[a + j]);
        if t < n - (b - a) {
            // rest[n - 1 - t] is at or after b - a, hence white space
            assert(is_space(rest[n - 1 - t]));
        }
        if t > n - (b - a) {
            assert(is_space(rest[b - a - 1]));
        }
        assert(t == n - (b - a));
        assert(rest.subrange(0, n - t) =~= sv@.subrange(a as int, b as int));
    }
    string_of_range(&sv, a, b)
}

/// The index of the first `c` in `s[from..]`, or the length of `s`.
fn chars_index_of(s: &Vec<char>, from: usize, c: char) -> (r: usize)
    requires
        from <= s.len(),
    ensures
        r == from + index_of_char(s@.subrange(from as int, s.len() as int), c),
        from <= r <= s.len(),
{
    let ghost tail = s@.subrange(from as int, s.len() as int);
    let mut i: usize = from;
    while i < s.len() && s[i] != c
        invariant
            from <= i <= s.len(),
            forall|j: int| from <= j < i ==> s@[j] != c,
        decreases s.len() - i,
    {
        i = i + 1;
    }
    proof {
        lemma_index_of_char(tail, c);
        let k = index_of_char(tail, c);
        assert(forall|j: int| 0 <= j < tail.len() ==> tail[j] == s@[from + j]);
        if k < i - from {
            assert(tail[k as int] == c);
        }
        if k > i - from {
            assert(tail[i - from] != c);
        }
    }
    i
}

/// What follows the first `c` in `s`, if `c` occurs.
pub fn after_first_char(s: &str, c: char) -> (r: Option<String>)
    ensures
        r.deep_view() == after_first(s@, c),
{
    let sv = chars_of(s);
    let i = chars_index_of(&sv, 0, c);
    assert(sv@.subrange(0, sv.len() as int) == sv@);
    if i < sv.len() {
        Some(string_of_range(&sv, i + 1, sv.len()))
    } else {
        None
    }
}

/// The lines of `s`.
pub fn lines_of(s: &str) -> (r: Vec<String>)
    ensures
        r.deep_view() == lines(s@),
{
    let sv = chars_of(s);
    let mut out: Vec<String> = Vec::new();
    let mut start: usize = 0;
    assert(sv@.subrange(0, sv.len() as int) == sv@);
    while start < sv.len()
        invariant
            start <= sv.len(),
            out.deep_view() + lines(sv@.subrange(start as int, sv.len() as int)) == lines(sv@),
        decreases sv.len() - start,
    {
        let ghost tail = sv@.subrange(start as int, sv.len() as int);
        let ghost before = out.deep_view();
        let end = chars_index_of(&sv, start, '\n');
        let mut stop = end;
        if stop > start && sv[stop - 1] == '\r' {
            stop = stop - 1;
        }
        let line = string_of_range(&sv, start, stop);
        proof {
            assert(tail.subrange(0, end - start) =~= sv@.subrange(start as int, end as int));
            assert(line@ =~= strip_carriage_return(tail.subrange(0, end - start)));
        }
        out.push(line);
        assert(out.deep_view() =~= before + seq![line@]);
        if end < sv.len() {
            proof {
                assert(tail.subrange(end - start + 1, tail.len() as int) =~= sv@.subrange(
                    end + 1,
                    sv.len() as int,
                ));
                assert(before + (seq![line@] + lines(sv@.subrange(end + 1, sv.len() as int)))
                    =~= (before + seq![line@]) + lines(sv@.subrange(end + 1, sv.len() as int)));
            }
            start = end + 1;
        } else {
            proof {
                assert(tail.subrange(0, end - start) =~= tail);
                assert(lines(sv@.subrange(sv.len() as int, sv.len() as int)) =~= seq![]);
                assert(before + seq![line@] =~= (before + seq![line@]) + Seq::<
                    Seq<char>,
                >::empty());
            }
            start = sv.len();
        }
    }
    assert(lines(sv@.subrange(sv.len() as int, sv.len() as int)) =~= seq![]);
    assert(out.deep_view() + Seq::<Seq<char>>::empty() =~= out.deep_view());
    out
}

/// `a` followed by `b`.
pub fn concat_str(a: &str, b: &str) -> (r: String)
    ensures
        r@ == a@ + b@,
{
    let mut out = a.to_owned();
    out.append(b);
    out
}

/// The pieces of `s` between occurrences of `c`. A text without `c` is one piece.
pub open spec fn pieces(s: Seq<char>, c: char) -> Seq<Seq<char>>
    decreases s.len(),
{
    let i = index_of_char(s, c);
    if i < s.len() {
        seq![s.subrange(0, i as int)] + pieces(s.subrange(i as int + 1, s.len() as int), c)
    } else {
        seq![s]
    }
}

/// `base`, followed by each item of `extra` that is not yet in the list.
pub open spec fn add_missing(base: Seq<Seq<char>>, extra: Seq<Seq<char>>) -> Seq<Seq<char>>
    decreases extra.len(),
{
    if extra.len() == 0 {
        base
    } else {
        let list = add_missing(base, extra.drop_last());
        if list.contains(extra.last()) {
            list
        } else {
            list.push(extra.last())
        }
    }
}

/// The pieces of `s` between occurrences of `c`.
pub fn split_on_char(s: &str, c: char) -> (r: Vec<String>)
    ensures
        r.deep_view() == pieces(s@, c),
{
    let sv = chars_of(s);
    let mut out: Vec<String> = Vec::new();
    let mut start: usize = 0;
    assert(sv@.subrange(0, sv.len() as int) == sv@);
    loop
        invariant
            start <= sv.len(),
            sv@ == s@,
            out.deep_view() + pieces(sv@.subrange(start as int, sv.len() as int), c) == pieces(
                sv@,
                c,
            ),
        decreases sv.len() - start,
    {
        let ghost tail = sv@.subrange(start as int, sv.len() as int);
        let ghost before = out.deep_view();
        let end = chars_index_of(&sv, start, c);
        let piece = string_of_range(&sv, start, end);
        assert(tail.subrange(0, end - start) =~= sv@.subrange(start as int, end as int));
        out.push(piece);
        assert(out.deep_view() =~= before + seq![piece@]);
        if end < sv.len() {
            proof {
                assert(tail.subrange(end - start + 1, tail.len() as int) =~= sv@.subrange(
                    end + 1,
                    sv.len() as int,
                ));
                assert(before + (seq![piece@] + pieces(
                    sv@.subrange(end + 1, sv.len() as int),
                    c,
                )) =~= (before + seq![piece@]) + pieces(
                    sv@.subrange(end + 1, sv.len() as int),
                    c,
                ));
            }
            start = end + 1;
        } else {
            assert(tail.subrange(0, end - start) =~= tail);
            return out;
        }
    }
}

/// Whether `list` holds a string equal to `wanted`.
pub fn list_contains(list: &Vec<String>, wanted: &str) -> (r: bool)
    ensures
        r == list.deep_view().contains(wanted@),
{
    let mut i: usize = 0;
    while i < list.len()
        invariant
            i <= list.len(),
            forall|j: int| 0 <= j < i ==> list.deep_view()[j] != wanted@,
        decreases list.len() - i,
    {
        if same_str(list[i].as_str(), wanted) {
            assert(list.deep_view()[i as int] == wanted@);
            return true;
        }
        i = i + 1;
    }
    false
}

/// Adds to `list` each item of `extra` that it does not hold yet.
pub fn push_missing(list: &mut Vec<String>, extra: &Vec<String>)
    ensures
        final(list).deep_view() == add_missing(old(list).deep_view(), extra.deep_view()),
{
    let ghost base = list.deep_view();
    let ghost all = extra.deep_view();
    let mut i: usize = 0;
    while i < extra.len()
        invariant
            i <= extra.len(),
            all == extra.deep_view(),
            list.deep_view() == add_missing(base, all.take(i as int)),
        decreases extra.len() - i,
    {
        let ghost before = list.deep_view();
        assert(all.take(i + 1).drop_last() == all.take(i as int));
        assert(all.take(i + 1).last() == extra[i as int]@);
        if !list_contains(list, extra[i].as_str()) {
            list.push(extra[i].clone());
            assert(list.deep_view() =~= before.push(extra[i as int]@));
        }
        i = i + 1;
    }
    assert(all.take(all.len() as int) == all);
}

/// A copy of `o`.
pub fn clone_option(o: &Option<String>) -> (r: Option<String>)
    ensures
        r == *o,
{
    match o {
        Some(s) => Some(s.clone()),
        None => None,
    }
}

/// A copy of `v`.
pub fn clone_list(v: &Vec<String>) -> (r: Vec<String>)
    ensures
        r@ == v@,
        r.deep_view() == v.deep_view(),
{
    let mut out: Vec<String> = Vec::new();
    let mut i: usize = 0;
    while i < v.len()
        invariant
            i <= v.len(),
            out@ == v@.take(i as int),
        decreases v.len() - i,
    {
        out.push(v[i].clone());
        i = i + 1;
    }
    assert(v@.take(v.len() as int) == v@);
    assert(out.deep_view() =~= v.deep_view());
    out
}

/// A copy of `o`.
pub fn clone_option_list(o: &Option<Vec<String>>) -> (r: Option<Vec<String>>)
    ensures
        r.deep_view() == o.deep_view(),
{
    match o {
        Some(v) => Some(clone_list(v)),
        None => None,
    }
}

/// Owned copies of `items`.
pub fn owned_list(items: &[&str]) -> (r: Vec<String>)
    ensures
        r.deep_view() == Seq::new(items@.len(), |i: int| items@[i]@),
{
    let mut out: Vec<String> = Vec::new();
    let mut i: usize = 0;
    while i < items.len()
        invariant
            i <= items.len(),
            out.deep_view() == Seq::new(i as nat, |j: int| items@[j]@),
        decreases items.len() - i,
    {
        let ghost before = out.deep_view();
        out.push(items[i].to_owned());
        assert(out.deep_view() =~= before.push(items@[i as int]@));
        i = i + 1;
        assert(out.deep_view() =~= Seq::new(i as nat, |j: int| items@[j]@));
    }
    out
}

/// The three texts one after the other.
pub fn concat3(a: &str, b: &str, c: &str) -> (r: String)
    ensures
        r@ == a@ + b@ + c@,
{
    let mut out = a.to_owned();
    out.append(b);
    out.append(c);
    out
}

/// The four texts one after the other.
pub fn concat4(a: &str, b: &str, c: &str, d: &str) -> (r: String)
    ensures
        r@ == a@ + b@ + c@ + d@,
{
    let mut out = concat3(a, b, c);
    out.append(d);
    out
}

/// The six texts one after the other.
pub fn concat6(a: &str, b: &str, c: &str, d: &str, e: &str, f: &str) -> (r: String)
    ensures
        r@ == a@ + b@ + c@ + d@ + e@ + f@,
{
    let mut out = concat4(a, b, c, d);
    out.append(e);
    out.append(f);
    out
}

/// The eight texts one after the other.
pub fn concat8(a: &str, b: &str, c: &str, d: &str, e: &str, f: &str, g: &str, h: &str) -> (r:
    String)
    ensures
        r@ == a@ + b@ + c@ + d@ + e@ + f@ + g@ + h@,
{
    let mut out = concat6(a, b, c, d, e, f);
    out.append(g);
    out.append(h);
    out
}

/// `s` with each `from` replaced by `to`.
pub open spec fn replace_char(s: Seq<char>, from: char, to: char) -> Seq<char> {
    Seq::new(
        s.len(),
        |i: int|
            if s[i] == from {
                to
            } else {
                s[i]
            },
    )
}

/// `s` with each `from` replaced by `to`.
pub fn replace_char_str(s: &str, from: char, to: char) -> (r: String)
    ensures
        r@ == replace_char(s@, from, to),
{
    let sv = chars_of(s);
    let mut out = String::new();
    let mut i: usize = 0;
    while i < sv.len()
        invariant
            i <= sv.len(),
            sv@ == s@,
            out@ == replace_char(s@, from, to).subrange(0, i as int),
        decreases sv.len() - i,
    {
        let c = if sv[i] == from {
            to
        } else {
            sv[i]
        };
        out.push(c);
        i = i + 1;
        assert(out@ =~= replace_char(s@, from, to).subrange(0, i as int));
    }
    assert(replace_char(s@, from, to).subrange(0, sv.len() as int) =~= replace_char(s@, from, to));
    out
}

/// The characters `s[from..to]`, where the range lies in `s`.
pub open spec fn slice(s: Seq<char>, from: int, to: int) -> Option<Seq<char>> {
    if 0 <= from <= to <= s.len() {
        Some(s.subrange(from, to))
    } else {
        None
    }
}

/// The least index at which `needle` stands in `s`.
pub fn find_str(s: &str, needle: &str) -> (r: Option<usize>)
    ensures
        match r {
            Some(i) => first_occurrence(s@, needle@) == Some(i as int),
            None => first_occurrence(s@, needle@) is None,
        },
{
    let sv = chars_of(s);
    let nv = chars_of(needle);
    chars_find(&sv, &nv)
}

/// The characters `s[from..to]`, where the range lies in `s`.
pub fn slice_str(s: &str, from: usize, to: usize) -> (r: Option<String>)
    ensures
        r.deep_view() == slice(s@, from as int, to as int),
{
    let sv = chars_of(s);
    if from <= to && to <= sv.len() {
        Some(string_of_range(&sv, from, to))
    } else {
        None
    }
}

/// The number of characters of `s`.
pub fn char_count(s: &str) -> (r: usize)
    ensures
        r == s@.len(),
{
    chars_of(s).len()
}

/// The index of the first item of `list` equal to `wanted`.
pub open spec fn position(list: Seq<Seq<char>>, wanted: Seq<char>) -> Option<int>
    decreases list.len(),
{
    if list.len() == 0 {
        None
    } else if list[0] == wanted {
        Some(0)
    } else {
        match position(list.subrange(1, list.len() as int), wanted) {
            Some(i) => Some(i + 1),
            None => None,
        }
    }
}

/// `position` gives the least index of an equal item, and none only where
/// no item is equal.
pub proof fn lemma_position(list: Seq<Seq<char>>, wanted: Seq<char>)
    ensures
        match position(list, wanted) {
            Some(i) => 0 <= i < list.len() && list[i] == wanted && forall|j: int|
                0 <= j < i ==> list[j] != wanted,
            None => forall|j: int| 0 <= j < list.len() ==> list[j] != wanted,
        },
    decreases list.len(),
{
    if list.len() == 0 {
    } else if list[0] == wanted {
    } else {
        let rest = list.subrange(1, list.len() as int);
        lemma_position(rest, wanted);
        match position(rest, wanted) {
            Some(i) => {
                assert(rest[i] == list[i + 1]);
                assert forall|j: int| 0 <= j < i + 1 implies list[j] != wanted by {
                    if j > 0 {
                        assert(rest[j - 1] == list[j]);
                    }
                }
            },
            None => {
                assert forall|j: int| 0 <= j < list.len() implies list[j] != wanted by {
                    if j > 0 {
                        assert(rest[j - 1] == list[j]);
                    }
                }
            },
        }
    }
}

/// The index of the first item of `list` equal to `wanted`.
#[verifier::loop_isolation(false)]
pub fn find_position(list: &Vec<String>, wanted: &str) -> (r: Option<usize>)
    ensures
        match r {
            Some(i) => position(list.deep_view(), wanted@) == Some(i as int) && i < list.len(),
            None => position(list.deep_view(), wanted@) is None,
        },
{
    let ghost all = list.deep_view();
    proof {
        lemma_position(all, wanted@);
    }
    let mut i: usize = 0;
    while i < list.len()
        invariant
            i <= list.len(),
            all == list.deep_view(),
            forall|j: int| 0 <= j < i ==> all[j] != wanted@,
        decreases list.len() - i,
    {
        if same_str(list[i].as_str(), wanted) {
            assert(all[i as int] == wanted@);
            return Some(i);
        }
        i = i + 1;
    }
    None
}

/// Adding what is missing takes nothing away: the list that was there begins
/// the list that results.
pub proof fn lemma_add_missing_keeps(base: Seq<Seq<char>>, extra: Seq<Seq<char>>)
    ensures
        base.len() <= add_missing(base, extra).len(),
        forall|i: int| 0 <= i < base.len() ==> add_missing(base, extra)[i] == base[i],
    decreases extra.len(),
{
    if extra.len() > 0 {
        lemma_add_missing_keeps(base, extra.drop_last());
    }
}

/// Nothing is missing where everything is there: a list to which items of
/// its own are added stays as it is.
pub proof fn lemma_add_missing_of_members(base: Seq<Seq<char>>, extra: Seq<Seq<char>>)
    requires
        forall|k: int| 0 <= k < extra.len() ==> base.contains(#[trigger] extra[k]),
    ensures
        add_missing(base, extra) == base,
    decreases extra.len(),
{
    if extra.len() > 0 {
        assert forall|k: int| 0 <= k < extra.drop_last().len() implies base.contains(
            #[trigger] extra.drop_last()[k],
        ) by {
            assert(extra.drop_last()[k] == extra[k]);
        }
        lemma_add_missing_of_members(base, extra.drop_last());
        assert(extra.last() == extra[extra.len() - 1]);
    }
}

/// Adding what is missing adds each item: every item of `extra` is in the
/// list that results.
pub proof fn lemma_add_missing_holds(base: Seq<Seq<char>>, extra: Seq<Seq<char>>, k: int)
    requires
        0 <= k < extra.len(),
    ensures
        add_missing(base, extra).contains(extra[k]),
    decreases extra.len(),
{
    let sofar = add_missing(base, extra.drop_last());
    if k == extra.len() - 1 {
        if sofar.contains(extra.last()) {
        } else {
            assert(sofar.push(extra.last())[sofar.len() as int] == extra[k]);
        }
    } else {
        lemma_add_missing_holds(base, extra.drop_last(), k);
        let w = choose|w: int| 0 <= w < sofar.len() && sofar[w] == extra.drop_last()[k];
        assert(add_missing(base, extra)[w] == extra[k]);
    }
}

} // verus!
