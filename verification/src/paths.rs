//! Paths as strings.
//!
//! A path is a string whose components are separated by `/`. The rules are
//! those of a POSIX path taken by its text alone: nothing here looks at a disk.

use crate::text::{chars_of, concat_str, starts_with, string_of_range};
use vstd::prelude::*;

verus! {

/// The length of `p` without the separators that end it. A path made of
/// separators alone keeps one of them.
pub open spec fn trimmed_len(p: Seq<char>) -> nat
    decreases p.len(),
{
    if p.len() > 1 && p[p.len() - 1] == '/' {
        trimmed_len(p.subrange(0, p.len() - 1))
    } else {
        p.len()
    }
}

/// `p` without the separators that end it.
pub open spec fn strip_trailing(p: Seq<char>) -> Seq<char> {
    p.subrange(0, trimmed_len(p) as int)
}

/// The index at which the last component of `p` begins: one past the last
/// separator, or 0 where `p` holds none.
pub open spec fn name_start(p: Seq<char>) -> nat
    decreases p.len(),
{
    if p.len() == 0 {
        0
    } else if p[p.len() - 1] == '/' {
        p.len()
    } else {
        name_start(p.subrange(0, p.len() - 1))
    }
}

/// `p` names the root directory or nothing at all.
pub open spec fn is_root_or_empty(p: Seq<char>) -> bool {
    let q = strip_trailing(p);
    q.len() == 0 || (q.len() == 1 && q[0] == '/')
}

/// The last component of `p`. The root, the empty path and a path that ends
/// in `..` have none.
pub open spec fn file_name(p: Seq<char>) -> Option<Seq<char>> {
    let q = strip_trailing(p);
    let name = q.subrange(name_start(q) as int, q.len() as int);
    if is_root_or_empty(p) || name == seq!['.', '.'] {
        None
    } else {
        Some(name)
    }
}

/// `p` without its last component. The root and the empty path have no
/// parent; the parent of a single relative component is the empty path.
pub open spec fn parent(p: Seq<char>) -> Option<Seq<char>> {
    let q = strip_trailing(p);
    if is_root_or_empty(p) {
        None
    } else {
        Some(strip_trailing(q.subrange(0, name_start(q) as int)))
    }
}

/// `rel` taken from the directory `base`. An absolute `rel` replaces `base`.
pub open spec fn join(base: Seq<char>, rel: Seq<char>) -> Seq<char> {
    if rel.len() > 0 && rel[0] == '/' {
        rel
    } else if base.len() == 0 {
        rel
    } else if base[base.len() - 1] == '/' {
        base + rel
    } else {
        base + seq!['/'] + rel
    }
}

/// `p` lies at or below `base`: the components of `base` begin those of `p`.
pub open spec fn is_under(p: Seq<char>, base: Seq<char>) -> bool {
    let q = strip_trailing(p);
    let b = strip_trailing(base);
    b.len() == 0 || (starts_with(q, b) && (q.len() == b.len() || b[b.len() - 1] == '/' || q[b.len() as int]
        == '/'))
}

/// The `n`-th ancestor of `p`: `p` itself for 0, its parent for 1, and so on.
pub open spec fn ancestor(p: Seq<char>, n: nat) -> Option<Seq<char>>
    decreases n,
{
    if n == 0 {
        Some(p)
    } else {
        match ancestor(p, (n - 1) as nat) {
            Some(q) => parent(q),
            None => None,
        }
    }
}

pub proof fn lemma_trimmed_len(p: Seq<char>)
    ensures
        trimmed_len(p) <= p.len(),
        p.len() > 0 ==> trimmed_len(p) >= 1,
        trimmed_len(p) > 1 ==> p[trimmed_len(p) - 1] != '/',
        forall|j: int| trimmed_len(p) <= j < p.len() ==> p[j] == '/',
    decreases p.len(),
{
    if p.len() > 1 && p[p.len() - 1] == '/' {
        let rest = p.subrange(0, p.len() - 1);
        lemma_trimmed_len(rest);
        assert forall|j: int| trimmed_len(p) <= j < p.len() implies p[j] == '/' by {
            if j < p.len() - 1 {
                assert(rest[j] == p[j]);
            }
        }
        if trimmed_len(p) > 1 {
            assert(rest[trimmed_len(p) - 1] == p[trimmed_len(p) - 1]);
        }
    }
}

pub proof fn lemma_name_start(p: Seq<char>)
    ensures
        name_start(p) <= p.len(),
        name_start(p) > 0 ==> p[name_start(p) - 1] == '/',
        forall|j: int| name_start(p) <= j < p.len() ==> p[j] != '/',
    decreases p.len(),
{
    if p.len() > 0 && p[p.len() - 1] != '/' {
        let rest = p.subrange(0, p.len() - 1);
        lemma_name_start(rest);
        assert forall|j: int| name_start(p) <= j < p.len() implies p[j] != '/' by {
            if j < p.len() - 1 {
                assert(rest[j] == p[j]);
            }
        }
        if name_start(p) > 0 {
            assert(rest[name_start(p) - 1] == p[name_start(p) - 1]);
        }
    }
}

/// The length of `v[..len]` without the separators that end it.
fn chars_trimmed_len(v: &Vec<char>, len: usize) -> (r: usize)
    requires
        len <= v.len(),
    ensures
        r == trimmed_len(v@.subrange(0, len as int)),
        r <= len,
{
    let ghost p = v@.subrange(0, len as int);
    let mut n: usize = len;
    while n > 1 && v[n - 1] == '/'
        invariant
            n <= len <= v.len(),
            len > 0 ==> n >= 1,
            forall|j: int| n <= j < len ==> v@[j] == '/',
        decreases n,
    {
        n = n - 1;
    }
    proof {
        lemma_trimmed_len(p);
        let t = trimmed_len(p);
        assert(forall|j: int| 0 <= j < len ==> p[j] == v@[j]);
        if t < n {
            assert(p[n - 1] == '/');
        }
        if t > n {
            assert(p[t - 1] != '/');
        }
    }
    n
}

/// The index at which the last component of `v[..len]` begins.
fn chars_name_start(v: &Vec<char>, len: usize) -> (r: usize)
    requires
        len <= v.len(),
    ensures
        r == name_start(v@.subrange(0, len as int)),
        r <= len,
{
    let ghost p = v@.subrange(0, len as int);
    let mut n: usize = len;
    while n > 0 && v[n - 1] != '/'
        invariant
            n <= len <= v.len(),
            forall|j: int| n <= j < len ==> v@[j] != '/',
        decreases n,
    {
        n = n - 1;
    }
    proof {
        lemma_name_start(p);
        let t = name_start(p);
        assert(forall|j: int| 0 <= j < len ==> p[j] == v@[j]);
        if t < n {
            assert(p[n - 1] != '/');
        }
        if t > n {
            assert(p[t - 1] == '/');
        }
    }
    n
}

/// `path` without the separators that end it.
pub fn strip_trailing_of(path: &str) -> (r: String)
    ensures
        r@ == strip_trailing(path@),
{
    let v = chars_of(path);
    assert(v@.subrange(0, v.len() as int) == v@);
    let n = chars_trimmed_len(&v, v.len());
    string_of_range(&v, 0, n)
}

/// The last component of `path`.
pub fn file_name_of(path: &str) -> (r: Option<String>)
    ensures
        r.deep_view() == file_name(path@),
{
    let v = chars_of(path);
    assert(v@.subrange(0, v.len() as int) == v@);
    let n = chars_trimmed_len(&v, v.len());
    if n == 0 || (n == 1 && v[0] == '/') {
        return None;
    }
    let k = chars_name_start(&v, n);
    let ghost q = strip_trailing(path@);
    let ghost name = q.subrange(k as int, n as int);
    assert(name =~= v@.subrange(k as int, n as int));
    if n - k == 2 && v[k] == '.' && v[k + 1] == '.' {
        assert(name =~= seq!['.', '.']);
        return None;
    }
    proof {
        if name == seq!['.', '.'] {
            assert(name.len() == 2);
            assert(name[0] == '.' && name[1] == '.');
        }
    }
    Some(string_of_range(&v, k, n))
}

/// `path` without its last component.
pub fn parent_of(path: &str) -> (r: Option<String>)
    ensures
        r.deep_view() == parent(path@),
{
    let v = chars_of(path);
    assert(v@.subrange(0, v.len() as int) == v@);
    let n = chars_trimmed_len(&v, v.len());
    if n == 0 || (n == 1 && v[0] == '/') {
        return None;
    }
    let k = chars_name_start(&v, n);
    let m = chars_trimmed_len(&v, k);
    proof {
        let q = strip_trailing(path@);
        assert(q.subrange(0, k as int) =~= v@.subrange(0, k as int));
        assert(strip_trailing(q.subrange(0, k as int)) =~= v@.subrange(0, m as int));
    }
    Some(string_of_range(&v, 0, m))
}

/// `rel` taken from the directory `base`.
pub fn join_path(base: &str, rel: &str) -> (r: String)
    ensures
        r@ == join(base@, rel@),
{
    let b = chars_of(base);
    let l = chars_of(rel);
    if l.len() > 0 && l[0] == '/' {
        rel.to_owned()
    } else if b.len() == 0 {
        rel.to_owned()
    } else if b[b.len() - 1] == '/' {
        concat_str(base, rel)
    } else {
        proof {
            reveal_strlit("/");
            assert("/"@ =~= seq!['/']);
        }
        let with_separator = concat_str(base, "/");
        concat_str(with_separator.as_str(), rel)
    }
}

/// Whether `path` lies at or below `base`.
pub fn is_under_path(path: &str, base: &str) -> (r: bool)
    ensures
        r == is_under(path@, base@),
{
    let p = chars_of(path);
    let b = chars_of(base);
    assert(p@.subrange(0, p.len() as int) == p@);
    assert(b@.subrange(0, b.len() as int) == b@);
    let pn = chars_trimmed_len(&p, p.len());
    let bn = chars_trimmed_len(&b, b.len());
    if bn == 0 {
        return true;
    }
    if bn > pn {
        return false;
    }
    let ghost q = strip_trailing(path@);
    let ghost t = strip_trailing(base@);
    let mut i: usize = 0;
    while i < bn
        invariant
            i <= bn <= pn,
            pn <= p.len(),
            bn <= b.len(),
            q == strip_trailing(path@) && q == p@.subrange(0, pn as int),
            t == strip_trailing(base@) && t == b@.subrange(0, bn as int),
            forall|j: int| 0 <= j < i ==> p@[j] == b@[j],
        decreases bn - i,
    {
        if p[i] != b[i] {
            assert(t.len() == bn);
            assert(q.subrange(0, t.len() as int)[i as int] != t[i as int]);
            assert(!starts_with(q, t));
            return false;
        }
        i = i + 1;
    }
    assert(q.subrange(0, bn as int) =~= t);
    pn == bn || b[bn - 1] == '/' || p[bn] == '/'
}

/// The `n`-th ancestor of `path`.
pub fn ancestor_of(path: &str, n: usize) -> (r: Option<String>)
    ensures
        r.deep_view() == ancestor(path@, n as nat),
{
    let mut current: Option<String> = Some(path.to_owned());
    let mut i: usize = 0;
    while i < n
        invariant
            i <= n,
            current.deep_view() == ancestor(path@, i as nat),
        decreases n - i,
    {
        current = match current {
            Some(q) => parent_of(q.as_str()),
            None => None,
        };
        i = i + 1;
    }
    current
}

} // verus!
