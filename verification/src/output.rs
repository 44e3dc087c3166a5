//! The text a slash command shows, with its labelled sections.

use vstd::prelude::*;
use vstd::utf8::{encode_scalar, encode_utf8, is_ascii_chars, is_ascii_chars_encode_utf8};
use crate::text::{owned, trim, trim_str};

verus! {

/// The number of bytes of the UTF-8 encoding of `s`.
pub open spec fn byte_len(s: Seq<char>) -> int {
    encode_utf8(s).len() as int
}

/// The encoding of `a + b` is as long as those of `a` and `b` together.
pub proof fn lemma_byte_len_concat(a: Seq<char>, b: Seq<char>)
    ensures
        byte_len(a + b) == byte_len(a) + byte_len(b),
    decreases a.len(),
{
    if a.len() == 0 {
        assert(a + b =~= b);
    } else {
        lemma_byte_len_concat(a.drop_first(), b);
        assert((a + b).drop_first() =~= a.drop_first() + b);
        assert((a + b)[0] == a[0]);
    }
}

/// The encoding of `a + b` is that of `a` followed by that of `b`.
pub proof fn lemma_encode_concat(a: Seq<char>, b: Seq<char>)
    ensures
        encode_utf8(a + b) == encode_utf8(a) + encode_utf8(b),
    decreases a.len(),
{
    if a.len() == 0 {
        assert(a + b =~= b);
        assert(encode_utf8(a) + encode_utf8(b) =~= encode_utf8(b));
    } else {
        lemma_encode_concat(a.drop_first(), b);
        assert((a + b).drop_first() =~= a.drop_first() + b);
        assert((a + b)[0] == a[0]);
        let h = encode_scalar(a[0] as u32);
        assert(encode_utf8(a + b) =~= h + encode_utf8(a.drop_first() + b));
        assert(encode_utf8(a) =~= h + encode_utf8(a.drop_first()));
    }
}

/// An ASCII sequence takes one byte per character.
pub proof fn lemma_byte_len_ascii(s: Seq<char>)
    requires
        is_ascii_chars(s),
    ensures
        byte_len(s) == s.len(),
{
    is_ascii_chars_encode_utf8(s);
}

/// A labelled byte range of a slash command's text.
#[derive(Debug)]
pub struct OutputSection {
    pub start: usize,
    pub end: usize,
    pub label: String,
}

/// What a slash command shows.
#[derive(Debug)]
pub struct SlashOutput {
    pub text: String,
    pub sections: Vec<OutputSection>,
}

/// `o` shows `text` as one section labelled `label` that spans all of it.
pub open spec fn is_single_section(o: SlashOutput, text: Seq<char>, label: Seq<char>) -> bool {
    &&& o.text@ == text
    &&& o.sections@.len() == 1
    &&& o.sections@[0].start == 0
    &&& o.sections@[0].end == byte_len(text) as usize
    &&& o.sections@[0].label@ == label
}

/// Shows `text` as one section labelled `label`.
pub fn single_section_output(text: String, label: &str) -> (o: SlashOutput)
    ensures
        is_single_section(o, text@, label@),
{
    let end = text.as_str().len();
    let mut sections: Vec<OutputSection> = Vec::new();
    sections.push(OutputSection { start: 0, end, label: owned(label) });
    SlashOutput { text, sections }
}

/// The message for a failed command: `prefix`, followed by `: ` and the
/// trimmed standard error, or the trimmed standard output when the error is
/// blank, unless both are blank.
pub open spec fn failure_message(prefix: Seq<char>, stderr: Seq<char>, stdout: Seq<char>) -> Seq<char> {
    let e = trim(stderr);
    let o = trim(stdout);
    let m = if e.len() > 0 {
        e
    } else {
        o
    };
    if m.len() == 0 {
        prefix
    } else {
        prefix + ": "@ + m
    }
}

/// The message for a failed command (see `failure_message`); `stderr` and
/// `stdout` are its outputs decoded as UTF-8 with invalid sequences replaced.
pub fn command_failure_message(prefix: &str, stderr: &str, stdout: &str) -> (r: String)
    ensures
        r@ == failure_message(prefix@, stderr@, stdout@),
{
    let e = trim_str(stderr);
    let o = trim_str(stdout);
    let m = if e.as_str().unicode_len() > 0 {
        e
    } else {
        o
    };
    if m.as_str().unicode_len() == 0 {
        owned(prefix)
    } else {
        let mut r = owned(prefix);
        r.append(": ");
        r.append(m.as_str());
        r
    }
}

} // verus!
