//! Character-sequence helpers on which the rest of the library builds.
//!
//! Strings are viewed as `Seq<char>`; the exec functions here compute the
//! prefix, suffix, substring, trimming and joining operations of std's `str`
//! and state them over that view.

use vstd::prelude::*;

verus! {

/// `p` is a prefix of `s`.
pub open spec fn is_prefix(p: Seq<char>, s: Seq<char>) -> bool {
    p.len() <= s.len() && s.subrange(0, p.len() as int) == p
}

/// `p` is a suffix of `s`.
pub open spec fn is_suffix(p: Seq<char>, s: Seq<char>) -> bool {
    p.len() <= s.len() && s.subrange(s.len() - p.len(), s.len() as int) == p
}

/// `n` occurs in `s` starting at index `i`.
pub open spec fn occurs_at(s: Seq<char>, n: Seq<char>, i: int) -> bool {
    0 <= i && i + n.len() <= s.len() && s.subrange(i, i + n.len()) == n
}

/// `n` occurs somewhere in `s` (the empty sequence occurs in every sequence).
pub open spec fn contains_seq(s: Seq<char>, n: Seq<char>) -> bool {
    exists|i: int| occurs_at(s, n, i)
}

/// The characters that `char::is_whitespace` accepts: those with the Unicode
/// `White_Space` property.
pub open spec fn is_whitespace(c: char) -> bool {
    ||| '\u{9}' <= c <= '\u{d}'
    ||| c == ' '
    ||| c == '\u{85}'
    ||| c == '\u{a0}'
    ||| c == '\u{1680}'
    ||| '\u{2000}' <= c <= '\u{200a}'
    ||| c == '\u{2028}'
    ||| c == '\u{2029}'
    ||| c == '\u{202f}'
    ||| c == '\u{205f}'
    ||| c == '\u{3000}'
}

/// `s` without its leading whitespace.
pub open spec fn trim_start(s: Seq<char>) -> Seq<char>
    decreases s.len(),
{
    if s.len() > 0 && is_whitespace(s[0]) {
        trim_start(s.drop_first())
    } else {
        s
    }
}

/// `s` without its trailing whitespace.
pub open spec fn trim_end(s: Seq<char>) -> Seq<char>
    decreases s.len(),
{
    if s.len() > 0 && is_whitespace(s.last()) {
        trim_end(s.drop_last())
    } else {
        s
    }
}

/// `s` without leading and trailing whitespace, as `str::trim` gives it.
pub open spec fn trim(s: Seq<char>) -> Seq<char> {
    trim_end(trim_start(s))
}

/// What std's `str::to_lowercase` returns for a string: its Unicode lowercase
/// mapping (which looks at context for a few characters, such as a final
/// sigma), which takes the Unicode tables to state.
pub uninterp spec fn lowercase(s: Seq<char>) -> Seq<char>;

/// `trim_start` and `trim_end` remove exactly the leading and trailing
/// whitespace: what is left neither starts nor ends with whitespace.
pub proof fn lemma_trim_start_bounds(s: Seq<char>)
    ensures
        trim_start(s).len() > 0 ==> !is_whitespace(trim_start(s)[0]),
        trim_start(trim_start(s)) == trim_start(s),
    decreases s.len(),
{
    if s.len() > 0 && is_whitespace(s[0]) {
        lemma_trim_start_bounds(s.drop_first());
    }
}

/// `trim_end` leaves no trailing whitespace and keeps the first character
/// when that is not whitespace.
pub proof fn lemma_trim_end_bounds(s: Seq<char>)
    ensures
        trim_end(s).len() > 0 ==> !is_whitespace(trim_end(s).last()),
        trim_end(trim_end(s)) == trim_end(s),
        trim_end(s).len() <= s.len(),
        trim_end(s) =~= s.subrange(0, trim_end(s).len() as int),
        s.len() > 0 && !is_whitespace(s[0]) ==> trim_end(s).len() > 0,
        trim_start(trim_end(s)) == trim_end(s) <== (s.len() == 0 || !is_whitespace(s[0])),
    decreases s.len(),
{
    if s.len() > 0 && is_whitespace(s.last()) {
        lemma_trim_end_bounds(s.drop_last());
        let t = trim_end(s.drop_last());
        assert(s.drop_last().subrange(0, t.len() as int) =~= s.subrange(0, t.len() as int));
        if s.drop_last().len() > 0 && !is_whitespace(s[0]) {
            assert(s.drop_last()[0] == s[0]);
        }
        if t.len() > 0 {
            assert(t[0] == s[0]);
        }
    } else {
        assert(s.subrange(0, s.len() as int) =~= s);
    }
}

/// Trimmed text has no whitespace at either end, and trimming it again
/// changes nothing.
pub proof fn lemma_trim_bounds(s: Seq<char>)
    ensures
        trim(s).len() > 0 ==> !is_whitespace(trim(s)[0]) && !is_whitespace(trim(s).last()),
        trim(trim(s)) == trim(s),
{
    lemma_trim_start_bounds(s);
    let a = trim_start(s);
    lemma_trim_end_bounds(a);
    let t = trim_end(a);
    if t.len() > 0 {
        assert(t[0] == a[0]);
    }
    if t.len() > 0 {
        assert(trim_start(t) == t);
    } else {
        assert(trim_start(t) == t);
    }
}

/// The elements of `parts` with `sep` between each two neighbours
/// (`[String]::join`).
pub open spec fn join_seq(parts: Seq<Seq<char>>, sep: Seq<char>) -> Seq<char>
    decreases parts.len(),
{
    if parts.len() == 0 {
        Seq::empty()
    } else if parts.len() == 1 {
        parts[0]
    } else {
        join_seq(parts.drop_last(), sep) + sep + parts.last()
    }
}

/// Every occurrence of the character `from` in `s` replaced by `to`.
pub open spec fn replace_char(s: Seq<char>, from: char, to: Seq<char>) -> Seq<char>
    decreases s.len(),
{
    if s.len() == 0 {
        Seq::empty()
    } else {
        (if s[0] == from {
            to
        } else {
            seq![s[0]]
        }) + replace_char(s.drop_first(), from, to)
    }
}

/// Replacing in a sequence with one more character at its end.
pub proof fn lemma_replace_char_push(s: Seq<char>, c: char, from: char, to: Seq<char>)
    ensures
        replace_char(s.push(c), from, to) == replace_char(s, from, to) + (if c == from {
            to
        } else {
            seq![c]
        }),
    decreases s.len(),
{
    let tail = if c == from {
        to
    } else {
        seq![c]
    };
    if s.len() == 0 {
        assert(s.push(c).drop_first() =~= Seq::<char>::empty());
        assert(s.push(c)[0] == c);
        assert(replace_char(Seq::<char>::empty(), from, to) =~= Seq::<char>::empty());
        assert(replace_char(s.push(c), from, to) =~= tail + replace_char(Seq::<char>::empty(), from, to));
        assert(replace_char(s.push(c), from, to) =~= replace_char(s, from, to) + tail);
    } else {
        lemma_replace_char_push(s.drop_first(), c, from, to);
        assert(s.push(c).drop_first() =~= s.drop_first().push(c));
        assert(s.push(c)[0] == s[0]);
    }
}

/// Appends one character to a `String` with std's `String::push`. Trusted:
/// the contract claims, as std documents, that the string afterwards holds
/// its old characters followed by `c`.
#[verifier::external_body]
pub(crate) fn push_char(s: &mut String, c: char)
    ensures
        final(s)@ == old(s)@.push(c),
{
    s.push(c);
}

/// Lowercases `s` with std's `str::to_lowercase`. Trusted: the contract
/// claims only that the result is `lowercase` of the characters of `s`, a
/// function of them alone (std's mapping does not depend on a locale).
#[verifier::external_body]
pub(crate) fn to_lowercase(s: &str) -> (r: String)
    ensures
        r@ == lowercase(s@),
{
    s.to_lowercase()
}

/// The characters of `s`, in order.
pub fn chars_of(s: &str) -> (v: Vec<char>)
    ensures
        v@ == s@,
{
    let n = s.unicode_len();
    let mut v: Vec<char> = Vec::new();
    let mut i: usize = 0;
    while i < n
        invariant
            n == s@.len(),
            i <= n,
            v@ == s@.subrange(0, i as int),
        decreases n - i,
    {
        v.push(s.get_char(i));
        i += 1;
    }
    v
}

/// A `String` holding the characters `v[from..to]`.
pub fn string_of_range(v: &Vec<char>, from: usize, to: usize) -> (s: String)
    requires
        from <= to <= v.len(),
    ensures
        s@ == v@.subrange(from as int, to as int),
{
    let mut s = String::new();
    let mut i: usize = from;
    while i < to
        invariant
            from <= i <= to <= v.len(),
            s@ == v@.subrange(from as int, i as int),
        decreases to - i,
    {
        push_char(&mut s, v[i]);
        i += 1;
    }
    s
}

/// A copy of `s` as an owned `String`.
pub fn owned(s: &str) -> (r: String)
    ensures
        r@ == s@,
{
    s.to_owned()
}

/// `s` followed by `t`.
pub fn concat(s: &str, t: &str) -> (r: String)
    ensures
        r@ == s@ + t@,
{
    let mut r = s.to_owned();
    r.append(t);
    r
}

/// Whether `n` occurs in `s` at index `i`.
pub fn occurs_at_exec(s: &Vec<char>, n: &Vec<char>, i: usize) -> (r: bool)
    ensures
        r == occurs_at(s@, n@, i as int),
{
    if i > s.len() || n.len() > s.len() - i {
        return false;
    }
    let mut j: usize = 0;
    while j < n.len()
        invariant
            i + n.len() <= s.len(),
            j <= n.len(),
            forall|k: int| 0 <= k < j ==> s@[i + k] == n@[k],
        decreases n.len() - j,
    {
        if s[i + j] != n[j] {
            assert(s@.subrange(i as int, i + n.len())[j as int] != n@[j as int]);
            return false;
        }
        j += 1;
    }
    assert(s@.subrange(i as int, i + n.len()) =~= n@);
    true
}

/// Whether the characters `s` start with `p`.
pub fn vec_starts_with(s: &Vec<char>, p: &Vec<char>) -> (r: bool)
    ensures
        r == is_prefix(p@, s@),
{
    occurs_at_exec(s, p, 0)
}

/// Whether the characters `s` end with `p`.
pub fn vec_ends_with(s: &Vec<char>, p: &Vec<char>) -> (r: bool)
    ensures
        r == is_suffix(p@, s@),
{
    if p.len() > s.len() {
        return false;
    }
    occurs_at_exec(s, p, s.len() - p.len())
}

/// Whether `n` occurs anywhere in the characters `s`.
pub fn vec_contains(s: &Vec<char>, n: &Vec<char>) -> (r: bool)
    ensures
        r == contains_seq(s@, n@),
{
    if n.len() > s.len() {
        assert forall|i: int| !occurs_at(s@, n@, i) by {}
        return false;
    }
    let last = s.len() - n.len();
    let mut i: usize = 0;
    while i < last
        invariant
            last == s.len() - n.len(),
            i <= last,
            forall|k: int| 0 <= k < i ==> !occurs_at(s@, n@, k),
        decreases last - i,
    {
        if occurs_at_exec(s, n, i) {
            return true;
        }
        i += 1;
    }
    if occurs_at_exec(s, n, last) {
        return true;
    }
    assert forall|k: int| !occurs_at(s@, n@, k) by {
        if 0 <= k < i {
        }
    }
    false
}

/// Whether `s` starts with `p` (`str::starts_with`).
pub fn starts_with(s: &str, p: &str) -> (r: bool)
    ensures
        r == is_prefix(p@, s@),
{
    vec_starts_with(&chars_of(s), &chars_of(p))
}

/// Whether `s` ends with `p` (`str::ends_with`).
pub fn ends_with(s: &str, p: &str) -> (r: bool)
    ensures
        r == is_suffix(p@, s@),
{
    vec_ends_with(&chars_of(s), &chars_of(p))
}

/// Whether `n` occurs in `s` (`str::contains`).
pub fn contains(s: &str, n: &str) -> (r: bool)
    ensures
        r == contains_seq(s@, n@),
{
    vec_contains(&chars_of(s), &chars_of(n))
}

/// Whether the strings are equal.
pub fn str_eq(a: &str, b: &str) -> (r: bool)
    ensures
        r == (a@ == b@),
{
    let av = chars_of(a);
    let bv = chars_of(b);
    if av.len() != bv.len() {
        return false;
    }
    assert(a@.subrange(0, a@.len() as int) =~= a@);
    let r = vec_starts_with(&av, &bv);
    if r {
        assert(a@ =~= b@);
    }
    r
}

/// Whether `s` holds the character `c`.
pub fn has_char(s: &str, c: char) -> (r: bool)
    ensures
        r == s@.contains(c),
{
    let v = chars_of(s);
    let mut i: usize = 0;
    while i < v.len()
        invariant
            v@ == s@,
            i <= v.len(),
            forall|k: int| 0 <= k < i ==> v@[k] != c,
        decreases v.len() - i,
    {
        if v[i] == c {
            return true;
        }
        i += 1;
    }
    false
}

/// `s` without the prefix `p`, if it has it (`str::strip_prefix`).
pub fn strip_prefix(s: &str, p: &str) -> (r: Option<String>)
    ensures
        r is Some <==> is_prefix(p@, s@),
        r matches Some(t) ==> t@ == s@.subrange(p@.len() as int, s@.len() as int),
{
    let sv = chars_of(s);
    let pv = chars_of(p);
    if vec_starts_with(&sv, &pv) {
        Some(string_of_range(&sv, pv.len(), sv.len()))
    } else {
        None
    }
}

/// Whether `c` is whitespace (`char::is_whitespace`).
pub fn is_whitespace_exec(c: char) -> (r: bool)
    ensures
        r == is_whitespace(c),
{
    ('\u{9}' <= c && c <= '\u{d}') || c == ' ' || c == '\u{85}' || c == '\u{a0}' || c
        == '\u{1680}' || ('\u{2000}' <= c && c <= '\u{200a}') || c == '\u{2028}' || c
        == '\u{2029}' || c == '\u{202f}' || c == '\u{205f}' || c == '\u{3000}'
}

/// `s` without leading and trailing whitespace (`str::trim`).
pub fn trim_str(s: &str) -> (r: String)
    ensures
        r@ == trim(s@),
{
    let v = chars_of(s);
    let n = v.len();
    let mut a: usize = 0;
    assert(s@.subrange(0, n as int) =~= s@);
    while a < n && is_whitespace_exec(v[a])
        invariant
            v@ == s@,
            n == v.len(),
            a <= n,
            trim_start(s@) == trim_start(s@.subrange(a as int, n as int)),
        decreases n - a,
    {
        assert(s@.subrange(a as int, n as int).drop_first() =~= s@.subrange(a + 1, n as int));
        a += 1;
    }
    assert(trim_start(s@) == s@.subrange(a as int, n as int));
    let mut b: usize = n;
    while b > a && is_whitespace_exec(v[b - 1])
        invariant
            v@ == s@,
            n == v.len(),
            a <= b <= n,
            trim(s@) == trim_end(s@.subrange(a as int, b as int)),
        decreases b,
    {
        assert(s@.subrange(a as int, b as int).drop_last() =~= s@.subrange(a as int, b - 1));
        b -= 1;
    }
    string_of_range(&v, a, b)
}

/// The strings of `parts` joined with `sep` between them (`[String]::join`).
pub fn join_strings(parts: &Vec<String>, sep: &str) -> (r: String)
    ensures
        r@ == join_seq(parts@.map_values(|p: String| p@), sep@),
{
    let ghost views = parts@.map_values(|p: String| p@);
    let mut r = String::new();
    let mut i: usize = 0;
    while i < parts.len()
        invariant
            views == parts@.map_values(|p: String| p@),
            i <= parts.len(),
            r@ == join_seq(views.subrange(0, i as int), sep@),
        decreases parts.len() - i,
    {
        if i > 0 {
            r.append(sep);
        }
        r.append(parts[i].as_str());
        assert(views.subrange(0, i + 1).drop_last() =~= views.subrange(0, i as int));
        i += 1;
    }
    assert(views.subrange(0, parts.len() as int) =~= views);
    r
}

/// `s` with every `from` character replaced by `to` (`str::replace`).
pub fn replace_char_str(s: &str, from: char, to: &str) -> (r: String)
    ensures
        r@ == replace_char(s@, from, to@),
{
    let v = chars_of(s);
    let mut r = String::new();
    let mut i: usize = 0;
    while i < v.len()
        invariant
            v@ == s@,
            i <= v.len(),
            r@ == replace_char(s@.subrange(0, i as int), from, to@),
        decreases v.len() - i,
    {
        proof {
            lemma_replace_char_push(s@.subrange(0, i as int), v@[i as int], from, to@);
            assert(s@.subrange(0, i as int).push(v@[i as int]) =~= s@.subrange(0, i + 1));
        }
        if v[i] == from {
            r.append(to);
        } else {
            push_char(&mut r, v[i]);
        }
        i += 1;
    }
    assert(s@.subrange(0, v.len() as int) =~= s@);
    r
}

/// The decimal digits of `n`.
pub open spec fn decimal(n: nat) -> Seq<char>
    decreases n,
{
    if n < 10 {
        seq![(('0' as int) + n) as char]
    } else {
        decimal(n / 10).push((('0' as int) + n % 10) as char)
    }
}

/// The digit character for `n` (below 10).
fn digit_exec(n: u128) -> (c: char)
    requires
        n < 10,
    ensures
        c == (('0' as int) + n) as char,
{
    let d: u8 = 48u8 + (n as u8);
    d as char
}

/// The decimal digits of `n`.
pub fn decimal_text(n: u128) -> (s: String)
    ensures
        s@ == decimal(n as nat),
    decreases n,
{
    if n < 10 {
        let mut s = String::new();
        push_char(&mut s, digit_exec(n));
        assert(s@ =~= decimal(n as nat));
        s
    } else {
        let mut s = decimal_text(n / 10);
        push_char(&mut s, digit_exec(n % 10));
        s
    }
}

} // verus!
