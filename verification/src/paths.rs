//! Paths as the extension's WebAssembly target (WASI, a Unix platform) sees
//! them: `/` is the only separator. The spec functions here state what
//! std's `Path::join`, `Path::parent`, `Path::file_name`, `Path::extension`,
//! `Path::is_absolute` and `Path::ancestors` give for a path held as text,
//! and the exec functions compute them on strings.

use vstd::prelude::*;
use crate::text::{chars_of, concat, owned, push_char, string_of_range};

verus! {

/// Index of the last `c` in `s`, or -1 when `s` holds none.
pub open spec fn last_index_of(s: Seq<char>, c: char) -> int
    decreases s.len(),
{
    if s.len() == 0 {
        -1
    } else if s.last() == c {
        s.len() - 1
    } else {
        last_index_of(s.drop_last(), c)
    }
}

/// What `last_index_of` returns lies in range, holds `c`, and no later index holds `c`.
pub proof fn lemma_last_index_of(s: Seq<char>, c: char)
    ensures
        -1 <= last_index_of(s, c) < s.len(),
        last_index_of(s, c) >= 0 ==> s[last_index_of(s, c)] == c,
        forall|k: int| last_index_of(s, c) < k < s.len() ==> s[k] != c,
    decreases s.len(),
{
    if s.len() > 0 && s.last() != c {
        lemma_last_index_of(s.drop_last(), c);
        assert forall|k: int| last_index_of(s, c) < k < s.len() implies s[k] != c by {
            if k < s.len() - 1 {
                assert(s.drop_last()[k] == s[k]);
            }
        }
    }
}

/// `p` is absolute: it starts at the root.
pub open spec fn is_absolute(p: Seq<char>) -> bool {
    p.len() > 0 && p[0] == '/'
}

/// `base` joined with `rel` (`Path::join`): an absolute `rel` replaces `base`;
/// otherwise a separator is put between them unless `base` is empty or already
/// ends with one.
pub open spec fn join(base: Seq<char>, rel: Seq<char>) -> Seq<char> {
    if is_absolute(rel) {
        rel
    } else if base.len() == 0 || base.last() == '/' {
        base + rel
    } else {
        base + seq!['/'] + rel
    }
}

/// `p` without trailing separators and trailing `.` components, keeping a
/// lone root and a leading `.`.
pub open spec fn trim_back(p: Seq<char>) -> Seq<char>
    decreases p.len(),
{
    if p.len() == 0 || p =~= seq!['/'] {
        p
    } else if p.last() == '/' {
        trim_back(p.drop_last())
    } else if p.len() >= 2 && p.last() == '.' && p[p.len() - 2] == '/' {
        trim_back(p.drop_last())
    } else {
        p
    }
}

/// `trim_back` keeps a prefix of its argument.
pub proof fn lemma_trim_back(p: Seq<char>)
    ensures
        trim_back(p).len() <= p.len(),
        trim_back(p) =~= p.subrange(0, trim_back(p).len() as int),
        trim_back(p).len() == 0 ==> p.len() == 0,
    decreases p.len(),
{
    if p.len() == 0 || p =~= seq!['/'] {
    } else if p.last() == '/' || (p.len() >= 2 && p.last() == '.' && p[p.len() - 2] == '/') {
        lemma_trim_back(p.drop_last());
        let t = trim_back(p.drop_last());
        assert(p.drop_last().subrange(0, t.len() as int) =~= p.subrange(0, t.len() as int));
        if t.len() == 0 {
            assert(p.drop_last().len() == 0);
            assert(p =~= seq!['/']);
        }
    }
}

/// The text of `p`'s final component, once trailing separators and `.` are
/// trimmed.
pub open spec fn last_component(p: Seq<char>) -> Seq<char> {
    let t = trim_back(p);
    t.subrange(last_index_of(t, '/') + 1, t.len() as int)
}

/// `Path::parent`: `p` without its final component; `None` for the empty
/// path and for the root.
pub open spec fn parent(p: Seq<char>) -> Option<Seq<char>> {
    let t = trim_back(p);
    if t.len() == 0 || t =~= seq!['/'] {
        None
    } else {
        Some(trim_back(t.subrange(0, last_index_of(t, '/') + 1)))
    }
}

/// `Path::file_name`: the final component, unless it is `..` or the path ends
/// in the root or is `.` or empty.
pub open spec fn file_name(p: Seq<char>) -> Option<Seq<char>> {
    let t = trim_back(p);
    let c = last_component(p);
    if t.len() == 0 || t =~= seq!['/'] || c =~= seq!['.'] || c =~= seq!['.', '.'] {
        None
    } else {
        Some(c)
    }
}

/// The extension of a file name (`Path::extension` on a name): the text after
/// its last `.`, provided that dot is not the name's first character.
pub open spec fn name_extension(name: Seq<char>) -> Option<Seq<char>> {
    let i = last_index_of(name, '.');
    if i <= 0 {
        None
    } else {
        Some(name.subrange(i + 1, name.len() as int))
    }
}

/// `Path::extension`.
pub open spec fn extension(p: Seq<char>) -> Option<Seq<char>> {
    match file_name(p) {
        Some(name) => name_extension(name),
        None => None,
    }
}

/// A parent is shorter than the path it was taken from.
pub proof fn lemma_parent_shorter(p: Seq<char>)
    ensures
        parent(p) matches Some(q) ==> q.len() < p.len(),
{
    let t = trim_back(p);
    lemma_trim_back(p);
    if !(t.len() == 0 || t =~= seq!['/']) {
        let i = last_index_of(t, '/');
        lemma_last_index_of(t, '/');
        let r = t.subrange(0, i + 1);
        lemma_trim_back(r);
        if i + 1 == t.len() {
            // the last character of a trimmed, non-root path is never a separator
            assert(t[t.len() - 1] == '/');
            assert(false) by {
                lemma_trim_back_last(p);
            }
        }
    }
}

/// A trimmed path that is not the root does not end with a separator.
pub proof fn lemma_trim_back_last(p: Seq<char>)
    ensures
        trim_back(p).len() > 0 && !(trim_back(p) =~= seq!['/']) ==> trim_back(p).last() != '/',
    decreases p.len(),
{
    if p.len() == 0 || p =~= seq!['/'] {
    } else if p.last() == '/' || (p.len() >= 2 && p.last() == '.' && p[p.len() - 2] == '/') {
        lemma_trim_back_last(p.drop_last());
    }
}

/// `Path::ancestors`: `p`, its parent, that one's parent, and so on.
pub open spec fn ancestors(p: Seq<char>) -> Seq<Seq<char>>
    decreases p.len(),
{
    match parent(p) {
        Some(q) => if q.len() < p.len() {
            seq![p] + ancestors(q)
        } else {
            seq![p]
        },
        None => seq![p],
    }
}

/// Index of the last `c` in `v`, or `v.len()` when there is none (so that it
/// fits a `usize`): `last_index_of` in exec form.
pub fn last_index_of_exec(v: &Vec<char>, c: char) -> (r: (bool, usize))
    ensures
        r.0 ==> r.1 < v.len() && r.1 as int == last_index_of(v@, c),
        !r.0 ==> last_index_of(v@, c) == -1,
{
    let mut i: usize = v.len();
    assert(v@.subrange(0, i as int) =~= v@);
    while i > 0
        invariant
            i <= v.len(),
            last_index_of(v@, c) == last_index_of(v@.subrange(0, i as int), c),
        decreases i,
    {
        assert(v@.subrange(0, i as int).drop_last() =~= v@.subrange(0, i - 1));
        if v[i - 1] == c {
            return (true, i - 1);
        }
        i -= 1;
    }
    (false, 0)
}

/// The length of `trim_back` of `v[0..end]`.
pub fn trim_back_len(v: &Vec<char>, end: usize) -> (r: usize)
    requires
        end <= v.len(),
    ensures
        r <= end,
        trim_back(v@.subrange(0, end as int)) =~= v@.subrange(0, r as int),
{
    let mut b: usize = end;
    while b > 0 && !(b == 1 && v[0] == '/') && (v[b - 1] == '/' || (b >= 2 && v[b - 1] == '.'
        && v[b - 2] == '/'))
        invariant
            b <= end <= v.len(),
            trim_back(v@.subrange(0, end as int)) == trim_back(v@.subrange(0, b as int)),
        decreases b,
    {
        assert(v@.subrange(0, b as int).drop_last() =~= v@.subrange(0, b - 1));
        proof {
            if v@.subrange(0, b as int) =~= seq!['/'] {
                assert(b == 1 && v@[0] == '/');
            }
        }
        b -= 1;
    }
    proof {
        let s = v@.subrange(0, b as int);
        if b == 1 && v@[0] == '/' {
            assert(s =~= seq!['/']);
        }
    }
    b
}

/// `Path::join` on strings.
pub fn join_path(base: &str, rel: &str) -> (r: String)
    ensures
        r@ == join(base@, rel@),
{
    let bv = chars_of(base);
    let rv = chars_of(rel);
    if rv.len() > 0 && rv[0] == '/' {
        owned(rel)
    } else if bv.len() == 0 || bv[bv.len() - 1] == '/' {
        concat(base, rel)
    } else {
        let mut r = owned(base);
        push_char(&mut r, '/');
        r.append(rel);
        r
    }
}

/// `Path::parent` on strings.
pub fn parent_path(p: &str) -> (r: Option<String>)
    ensures
        r matches Some(q) ==> parent(p@) == Some(q@),
        r is None ==> parent(p@) is None,
{
    let v = chars_of(p);
    assert(v@.subrange(0, v.len() as int) =~= p@);
    let t = trim_back_len(&v, v.len());
    if t == 0 || (t == 1 && v[0] == '/') {
        proof {
            if t == 1 {
                assert(v@.subrange(0, 1) =~= seq!['/']);
            }
        }
        return None;
    }
    let ghost ts = v@.subrange(0, t as int);
    assert(!(ts =~= seq!['/'])) by {
        if ts =~= seq!['/'] {
            assert(ts[0] == v@[0]);
        }
    }
    let tv = vec_prefix(&v, t);
    let (found, i) = last_index_of_exec(&tv, '/');
    let cut: usize = if found { i + 1 } else { 0 };
    assert(ts.subrange(0, cut as int) =~= v@.subrange(0, cut as int));
    let q = trim_back_len(&v, cut);
    Some(string_of_range(&v, 0, q))
}

/// The first `n` characters of `v`.
pub fn vec_prefix(v: &Vec<char>, n: usize) -> (r: Vec<char>)
    requires
        n <= v.len(),
    ensures
        r@ == v@.subrange(0, n as int),
{
    let mut r: Vec<char> = Vec::new();
    let mut i: usize = 0;
    while i < n
        invariant
            i <= n <= v.len(),
            r@ == v@.subrange(0, i as int),
        decreases n - i,
    {
        r.push(v[i]);
        i += 1;
    }
    r
}

/// `Path::file_name` on strings.
pub fn file_name_of(p: &str) -> (r: Option<String>)
    ensures
        r matches Some(q) ==> file_name(p@) == Some(q@),
        r is None ==> file_name(p@) is None,
{
    let v = chars_of(p);
    assert(v@.subrange(0, v.len() as int) =~= p@);
    let t = trim_back_len(&v, v.len());
    let ghost ts = v@.subrange(0, t as int);
    if t == 0 || (t == 1 && v[0] == '/') {
        proof {
            if t == 1 {
                assert(ts =~= seq!['/']);
            }
        }
        return None;
    }
    assert(!(ts =~= seq!['/'])) by {
        if ts =~= seq!['/'] {
            assert(ts[0] == v@[0]);
        }
    }
    let tv = vec_prefix(&v, t);
    let (found, i) = last_index_of_exec(&tv, '/');
    let start: usize = if found { i + 1 } else { 0 };
    let c = string_of_range(&v, start, t);
    assert(c@ =~= ts.subrange(last_index_of(ts, '/') + 1, ts.len() as int));
    let n = t - start;
    if (n == 1 && v[start] == '.') || (n == 2 && v[start] == '.' && v[start + 1] == '.') {
        proof {
            if n == 1 {
                assert(c@ =~= seq!['.']);
            } else {
                assert(c@ =~= seq!['.', '.']);
            }
        }
        None
    } else {
        proof {
            if c@ =~= seq!['.'] {
                assert(c@[0] == v@[start as int]);
            }
            if c@ =~= seq!['.', '.'] {
                assert(c@[0] == v@[start as int] && c@[1] == v@[start + 1]);
            }
        }
        Some(c)
    }
}

/// The extension of a file name (`name_extension`) on strings.
pub fn name_extension_of(name: &str) -> (r: Option<String>)
    ensures
        r matches Some(e) ==> name_extension(name@) == Some(e@),
        r is None ==> name_extension(name@) is None,
{
    let v = chars_of(name);
    let (found, i) = last_index_of_exec(&v, '.');
    if !found || i == 0 {
        None
    } else {
        Some(string_of_range(&v, i + 1, v.len()))
    }
}

/// `Path::extension` on strings.
pub fn extension_of(p: &str) -> (r: Option<String>)
    ensures
        r matches Some(e) ==> extension(p@) == Some(e@),
        r is None ==> extension(p@) is None,
{
    match file_name_of(p) {
        Some(name) => name_extension_of(name.as_str()),
        None => None,
    }
}

/// `Path::is_absolute` on strings.
pub fn is_absolute_path(p: &str) -> (r: bool)
    ensures
        r == is_absolute(p@),
{
    let v = chars_of(p);
    v.len() > 0 && v[0] == '/'
}

/// `Path::ancestors` on strings.
pub fn ancestors_of(p: &str) -> (r: Vec<String>)
    ensures
        r@.map_values(|s: String| s@) == ancestors(p@),
{
    let mut r: Vec<String> = Vec::new();
    let mut cur = owned(p);
    let ghost mut prefix: Seq<Seq<char>> = Seq::empty();
    loop
        invariant
            r@.map_values(|s: String| s@) == prefix,
            ancestors(p@) == prefix + ancestors(cur@),
        decreases cur@.len(),
    {
        proof {
            lemma_parent_shorter(cur@);
        }
        let next = parent_path(cur.as_str());
        let ghost old_cur = cur@;
        r.push(cur.clone());
        proof {
            prefix = prefix.push(old_cur);
            assert(r@.map_values(|s: String| s@) =~= prefix);
        }
        match next {
            Some(q) => {
                assert(ancestors(old_cur) =~= seq![old_cur] + ancestors(q@));
                assert(ancestors(p@) =~= prefix + ancestors(q@));
                cur = q;
            },
            None => {
                assert(ancestors(p@) =~= prefix);
                return r;
            },
        }
    }
}

} // verus!
