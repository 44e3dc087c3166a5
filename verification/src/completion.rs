//! How a completion item of the Dart language server is labelled: a snippet
//! of Dart code that the editor highlights, and the spans of it (or literal
//! pieces of text) that make up the label.

use vstd::prelude::*;
use vstd::utf8::encode_utf8;
use crate::output::{byte_len, lemma_byte_len_ascii, lemma_byte_len_concat, lemma_encode_concat};
use crate::text::{chars_of, concat, occurs_at, occurs_at_exec, owned, string_of_range};

verus! {

/// The kinds of completion item that get a label of their own.
#[derive(Clone, Copy, Debug, PartialEq, Eq)]
pub enum CompletionItemKind {
    Class,
    Function,
    Constructor,
    Method,
    Property,
    Variable,
    Other,
}

/// One piece of a label: a byte range of the code snippet, or literal text
/// with an optional highlight name.
#[derive(Debug)]
pub enum LabelSpan {
    CodeRange { start: usize, end: usize },
    Literal { text: String, highlight: Option<String> },
}

/// A completion label: the snippet, its spans, and the byte range of the
/// label that completion filtering matches against.
#[derive(Debug)]
pub struct CompletionLabel {
    pub code: String,
    pub spans: Vec<LabelSpan>,
    pub filter_start: usize,
    pub filter_end: usize,
}

/// A span as a mathematical value.
pub enum SpanView {
    Code(int, int),
    Literal(Seq<char>, Option<Seq<char>>),
}

/// A label as a mathematical value.
pub struct LabelView {
    pub code: Seq<char>,
    pub spans: Seq<SpanView>,
    pub filter_start: int,
    pub filter_end: int,
}

pub open spec fn opt_chars(o: Option<String>) -> Option<Seq<char>> {
    match o {
        Some(s) => Some(s@),
        None => None,
    }
}

pub open spec fn span_view(s: LabelSpan) -> SpanView {
    match s {
        LabelSpan::CodeRange { start, end } => SpanView::Code(start as int, end as int),
        LabelSpan::Literal { text, highlight } => SpanView::Literal(text@, opt_chars(highlight)),
    }
}

impl View for CompletionLabel {
    type V = LabelView;

    open spec fn view(&self) -> LabelView {
        LabelView {
            code: self.code@,
            spans: self.spans@.map_values(|s: LabelSpan| span_view(s)),
            filter_start: self.filter_start as int,
            filter_end: self.filter_end as int,
        }
    }
}

/// The separator between the parameter list and the return type in the
/// detail text of a function completion (" â†’ ", the UTF-8 bytes of an arrow
/// read as Windows-1252, as the server sends it).
pub open spec fn detail_arrow() -> Seq<char> {
    seq![' ', '\u{e2}', '\u{2020}', '\u{2019}', ' ']
}

/// `i` is the first index at which `n` occurs in `s`.
pub open spec fn is_first_occurrence(s: Seq<char>, n: Seq<char>, i: int) -> bool {
    &&& occurs_at(s, n, i)
    &&& forall|j: int| 0 <= j < i ==> !occurs_at(s, n, j)
}

/// What comes before and after the first occurrence of `n` in `s`, if `n`
/// occurs in `s` (`str::split_once`).
pub open spec fn split_once_seq(s: Seq<char>, n: Seq<char>) -> Option<(Seq<char>, Seq<char>)> {
    if exists|i: int| is_first_occurrence(s, n, i) {
        let i = choose|i: int| is_first_occurrence(s, n, i);
        Some((s.subrange(0, i), s.subrange(i + n.len(), s.len() as int)))
    } else {
        None
    }
}

/// The text of `s` before the first occurrence of `n`, or all of `s` where
/// `n` does not occur (the first piece of `str::split`).
pub open spec fn text_before(s: Seq<char>, n: Seq<char>) -> Seq<char> {
    match split_once_seq(s, n) {
        Some((a, _)) => a,
        None => s,
    }
}

/// The label of a function, constructor or method completion with label
/// `label` and detail `detail`: the detail is split at the arrow into the
/// parameter list and the return type, and the name is the label up to its
/// first `(`. The snippet reads `<ret> a<params> => <name>();`.
pub open spec fn callable_label(label: Seq<char>, detail: Option<Seq<char>>) -> Option<LabelView> {
    match (detail, split_once_seq(label, seq!['('])) {
        (Some(d), Some((name, _))) => match split_once_seq(d, detail_arrow()) {
            Some((params, rest)) => {
                let ret = text_before(rest, detail_arrow());
                let params_start = byte_len(ret) + 2;
                let name_start = params_start + byte_len(params) + 4;
                Some(
                    LabelView {
                        code: ret + " a"@ + params + " => "@ + name + "();"@,
                        spans: seq![
                            SpanView::Code(name_start, name_start + byte_len(name)),
                            SpanView::Code(params_start, params_start + byte_len(params)),
                            SpanView::Literal(detail_arrow(), None),
                            SpanView::Code(0, byte_len(ret)),
                        ],
                        filter_start: 0,
                        filter_end: byte_len(name),
                    },
                )
            },
            None => None,
        },
        _ => None,
    }
}

/// The label of a property completion: the detail is its type, and the
/// snippet reads `class A {<type> get <name> => a; }`.
pub open spec fn property_label(label: Seq<char>, detail: Option<Seq<char>>) -> Option<LabelView> {
    match detail {
        Some(ty) => {
            let name_start = 9 + byte_len(ty) + 5;
            Some(
                LabelView {
                    code: "class A {"@ + ty + " get "@ + label + " => a; }"@,
                    spans: seq![
                        SpanView::Code(name_start, name_start + byte_len(label)),
                        SpanView::Literal(detail_arrow(), None),
                        SpanView::Code(9, 9 + byte_len(ty)),
                    ],
                    filter_start: 0,
                    filter_end: byte_len(label),
                },
            )
        },
        None => None,
    }
}

/// A label that is the whole completion label as literal text, highlighted
/// as `highlight`.
pub open spec fn literal_label(label: Seq<char>, highlight: Seq<char>) -> LabelView {
    LabelView {
        code: Seq::empty(),
        spans: seq![SpanView::Literal(label, Some(highlight))],
        filter_start: 0,
        filter_end: byte_len(label),
    }
}

/// The label of a completion item of kind `kind`, or `None` where the item
/// keeps the editor's default label.
pub open spec fn completion_label(
    kind: Option<CompletionItemKind>,
    label: Seq<char>,
    detail: Option<Seq<char>>,
) -> Option<LabelView> {
    match kind {
        Some(CompletionItemKind::Class) => Some(literal_label(label, "type"@)),
        Some(CompletionItemKind::Function) => callable_label(label, detail),
        Some(CompletionItemKind::Constructor) => callable_label(label, detail),
        Some(CompletionItemKind::Method) => callable_label(label, detail),
        Some(CompletionItemKind::Property) => property_label(label, detail),
        Some(CompletionItemKind::Variable) => Some(literal_label(label, "variable"@)),
        _ => None,
    }
}

/// The `k`-th span of `v` is a byte range of its snippet whose bytes are
/// those of `text`.
pub open spec fn span_covers(v: LabelView, k: int, text: Seq<char>) -> bool {
    &&& 0 <= k < v.spans.len()
    &&& v.spans[k] matches SpanView::Code(start, end)
    &&& 0 <= start <= end <= byte_len(v.code)
    &&& encode_utf8(v.code).subrange(start, end) == encode_utf8(text)
}

/// Law: the code ranges of a function's label lie in its snippet and pick out
/// the function's name, its parameter list and its return type.
pub proof fn law_callable_label_spans(label: Seq<char>, detail: Option<Seq<char>>)
    ensures
        callable_label(label, detail) matches Some(v) ==> match (
            detail,
            split_once_seq(label, seq!['(']),
        ) {
            (Some(d), Some((name, _))) => match split_once_seq(d, detail_arrow()) {
                Some((params, rest)) => {
                    &&& span_covers(v, 0, name)
                    &&& span_covers(v, 1, params)
                    &&& span_covers(v, 3, text_before(rest, detail_arrow()))
                },
                None => false,
            },
            _ => false,
        },
{
    if let Some(v) = callable_label(label, detail) {
        let d = detail.unwrap();
        let name = split_once_seq(label, seq!['(']).unwrap().0;
        let (params, rest) = split_once_seq(d, detail_arrow()).unwrap();
        let ret = text_before(rest, detail_arrow());
        reveal_strlit(" a");
        reveal_strlit(" => ");
        reveal_strlit("();");
        lemma_byte_len_ascii(" a"@);
        lemma_byte_len_ascii(" => "@);
        lemma_byte_len_ascii("();"@);
        let p1 = ret + " a"@;
        let p2 = p1 + params;
        let p3 = p2 + " => "@;
        let p4 = p3 + name;
        lemma_encode_concat(ret, " a"@);
        lemma_encode_concat(p1, params);
        lemma_encode_concat(p2, " => "@);
        lemma_encode_concat(p3, name);
        lemma_encode_concat(p4, "();"@);
        assert(v.code == p4 + "();"@);
        let e = encode_utf8(v.code);
        assert(e =~= encode_utf8(ret) + encode_utf8(" a"@) + encode_utf8(params) + encode_utf8(
            " => "@,
        ) + encode_utf8(name) + encode_utf8("();"@));
        assert(e.subrange(0, byte_len(ret)) =~= encode_utf8(ret));
        assert(e.subrange(byte_len(ret) + 2, byte_len(ret) + 2 + byte_len(params)) =~= encode_utf8(
            params,
        ));
        let ns = byte_len(ret) + 2 + byte_len(params) + 4;
        assert(e.subrange(ns, ns + byte_len(name)) =~= encode_utf8(name));
    }
}

/// Law: the code ranges of a property's label lie in its snippet and pick out
/// the property's name and its type.
pub proof fn law_property_label_spans(label: Seq<char>, detail: Option<Seq<char>>)
    ensures
        property_label(label, detail) matches Some(v) ==> {
            &&& span_covers(v, 0, label)
            &&& span_covers(v, 2, detail.unwrap())
        },
{
    if let Some(v) = property_label(label, detail) {
        let ty = detail.unwrap();
        reveal_strlit("class A {");
        reveal_strlit(" get ");
        reveal_strlit(" => a; }");
        lemma_byte_len_ascii("class A {"@);
        lemma_byte_len_ascii(" get "@);
        lemma_byte_len_ascii(" => a; }"@);
        let p1 = "class A {"@ + ty;
        let p2 = p1 + " get "@;
        let p3 = p2 + label;
        lemma_encode_concat("class A {"@, ty);
        lemma_encode_concat(p1, " get "@);
        lemma_encode_concat(p2, label);
        lemma_encode_concat(p3, " => a; }"@);
        let e = encode_utf8(v.code);
        assert(e =~= encode_utf8("class A {"@) + encode_utf8(ty) + encode_utf8(" get "@)
            + encode_utf8(label) + encode_utf8(" => a; }"@));
        assert(e.subrange(9, 9 + byte_len(ty)) =~= encode_utf8(ty));
        let ns = 9 + byte_len(ty) + 5;
        assert(e.subrange(ns, ns + byte_len(label)) =~= encode_utf8(label));
    }
}

/// The first index at which `n` occurs in `s`, if any.
pub fn first_occurrence(s: &Vec<char>, n: &Vec<char>) -> (r: Option<usize>)
    ensures
        match r {
            Some(i) => is_first_occurrence(s@, n@, i as int),
            None => forall|i: int| !occurs_at(s@, n@, i),
        },
{
    if n.len() > s.len() {
        return None;
    }
    let last = s.len() - n.len();
    let mut i: usize = 0;
    while i < last
        invariant
            last == s.len() - n.len(),
            i <= last,
            forall|k: int| 0 <= k < i ==> !occurs_at(s@, n@, k),
        decreases last - i,
    {
        if occurs_at_exec(s, n, i) {
            return Some(i);
        }
        i += 1;
    }
    if occurs_at_exec(s, n, last) {
        return Some(last);
    }
    assert forall|k: int| !occurs_at(s@, n@, k) by {
        if 0 <= k < i {
        }
    }
    None
}

/// `str::split_once`: the text before and after the first occurrence of `n`
/// in `s`.
pub fn split_once_chars(s: &Vec<char>, n: &Vec<char>) -> (r: Option<(String, String)>)
    ensures
        match r {
            Some((a, b)) => split_once_seq(s@, n@) == Some((a@, b@)),
            None => split_once_seq(s@, n@) is None,
        },
{
    match first_occurrence(s, n) {
        Some(i) => {
            assert(occurs_at(s@, n@, i as int));
            proof {
                let j = choose|j: int| is_first_occurrence(s@, n@, j);
                assert(is_first_occurrence(s@, n@, j));
                if j < i {
                    assert(!occurs_at(s@, n@, j));
                } else if i < j {
                    assert(!occurs_at(s@, n@, i as int));
                }
                assert(j == i);
            }
            let len = s.len();
            assert(i + n@.len() <= len);
            let after = i + n.len();
            Some((string_of_range(s, 0, i), string_of_range(s, after, len)))
        },
        None => {
            assert(!exists|i: int| is_first_occurrence(s@, n@, i));
            None
        },
    }
}

/// The text of `s` before the first occurrence of `n`, or all of `s`.
fn text_before_chars(s: &Vec<char>, n: &Vec<char>) -> (r: String)
    ensures
        r@ == text_before(s@, n@),
{
    match split_once_chars(s, n) {
        Some((a, _)) => a,
        None => string_of_range(s, 0, s.len()),
    }
}

fn literal_completion_label(label: &str, highlight: &str) -> (r: CompletionLabel)
    requires
        byte_len(label@) <= usize::MAX,
    ensures
        r@ == literal_label(label@, highlight@),
{
    let mut spans: Vec<LabelSpan> = Vec::new();
    spans.push(LabelSpan::Literal { text: owned(label), highlight: Some(owned(highlight)) });
    let r = CompletionLabel { code: String::new(), spans, filter_start: 0, filter_end: label.len() };
    assert(r@.spans =~= literal_label(label@, highlight@).spans);
    r
}

fn callable_completion_label(label: &str, detail: Option<&str>) -> (r: Option<CompletionLabel>)
    requires
        match detail {
            Some(d) => byte_len(label@) + byte_len(d@) + 16 <= usize::MAX,
            None => true,
        },
    ensures
        match r {
            Some(l) => callable_label(label@, opt_str(detail)) == Some(l@),
            None => callable_label(label@, opt_str(detail)) is None,
        },
{
    let d = match detail {
        Some(d) => d,
        None => return None,
    };
    let label_chars = chars_of(label);
    let mut paren: Vec<char> = Vec::new();
    paren.push('(');
    assert(paren@ =~= seq!['(']);
    let name = match split_once_chars(&label_chars, &paren) {
        Some((name, _)) => name,
        None => return None,
    };
    let arrow = " \u{e2}\u{2020}\u{2019} ";
    proof {
        reveal_strlit(" \u{e2}\u{2020}\u{2019} ");
        assert(arrow@ =~= detail_arrow());
    }
    let arrow_chars = chars_of(arrow);
    let detail_chars = chars_of(d);
    let (params, rest) = match split_once_chars(&detail_chars, &arrow_chars) {
        Some(p) => p,
        None => return None,
    };
    let ret = text_before_chars(&chars_of(rest.as_str()), &arrow_chars);
    let ghost i = choose|i: int| is_first_occurrence(d@, detail_arrow(), i);
    proof {
        // The name, parameter list and return type are pieces of the label
        // and the detail, so their encodings are no longer.
        let label_rest = label@.subrange(name@.len() as int, label@.len() as int);
        assert(label@ =~= name@ + label_rest);
        lemma_byte_len_concat(name@, label_rest);
        let mid = d@.subrange(i, i + 5);
        assert(d@ =~= params@ + (mid + rest@));
        lemma_byte_len_concat(params@, mid + rest@);
        lemma_byte_len_concat(mid, rest@);
        let rest_tail = rest@.subrange(ret@.len() as int, rest@.len() as int);
        assert(rest@ =~= ret@ + rest_tail) by {
            if exists|k: int| is_first_occurrence(rest@, detail_arrow(), k) {
                let k = choose|k: int| is_first_occurrence(rest@, detail_arrow(), k);
                assert(ret@ =~= rest@.subrange(0, k));
            }
        }
        lemma_byte_len_concat(ret@, rest_tail);
    }
    let ret_len = ret.as_str().len();
    let params_len = params.as_str().len();
    let name_len = name.as_str().len();
    let params_start = ret_len + 2;
    let name_start = params_start + params_len + 4;
    let mut code = concat(ret.as_str(), " a");
    code.append(params.as_str());
    code.append(" => ");
    code.append(name.as_str());
    code.append("();");
    let mut spans: Vec<LabelSpan> = Vec::new();
    spans.push(LabelSpan::CodeRange { start: name_start, end: name_start + name_len });
    spans.push(LabelSpan::CodeRange { start: params_start, end: params_start + params_len });
    spans.push(LabelSpan::Literal { text: owned(arrow), highlight: None });
    spans.push(LabelSpan::CodeRange { start: 0, end: ret_len });
    let r = CompletionLabel { code, spans, filter_start: 0, filter_end: name_len };
    proof {
        reveal_strlit(" a");
        reveal_strlit(" => ");
        lemma_byte_len_ascii(" a"@);
        lemma_byte_len_ascii(" => "@);
        let expected = callable_label(label@, opt_str(detail)).unwrap();
        assert(r@.spans =~= expected.spans);
    }
    Some(r)
}

fn property_completion_label(label: &str, detail: Option<&str>) -> (r: Option<CompletionLabel>)
    requires
        match detail {
            Some(d) => byte_len(label@) + byte_len(d@) + 16 <= usize::MAX,
            None => true,
        },
    ensures
        match r {
            Some(l) => property_label(label@, opt_str(detail)) == Some(l@),
            None => property_label(label@, opt_str(detail)) is None,
        },
{
    let ty = match detail {
        Some(d) => d,
        None => return None,
    };
    let arrow = " \u{e2}\u{2020}\u{2019} ";
    proof {
        reveal_strlit(" \u{e2}\u{2020}\u{2019} ");
        assert(arrow@ =~= detail_arrow());
        reveal_strlit("class A {");
        reveal_strlit(" get ");
        lemma_byte_len_ascii("class A {"@);
        lemma_byte_len_ascii(" get "@);
    }
    let ty_len = ty.len();
    let name_len = label.len();
    let class_start_len: usize = 9;
    let name_start = class_start_len + ty_len + 5;
    let mut code = concat("class A {", ty);
    code.append(" get ");
    code.append(label);
    code.append(" => a; }");
    let mut spans: Vec<LabelSpan> = Vec::new();
    spans.push(LabelSpan::CodeRange { start: name_start, end: name_start + name_len });
    spans.push(LabelSpan::Literal { text: owned(arrow), highlight: None });
    spans.push(LabelSpan::CodeRange { start: class_start_len, end: class_start_len + ty_len });
    let r = CompletionLabel { code, spans, filter_start: 0, filter_end: name_len };
    proof {
        let expected = property_label(label@, opt_str(detail)).unwrap();
        assert(r@.spans =~= expected.spans);
    }
    Some(r)
}

/// The label of a completion item of kind `kind` with label `label` and
/// detail `detail` (see `completion_label`).
pub fn label_for_completion(kind: Option<CompletionItemKind>, label: &str, detail: Option<&str>) -> (r: Option<CompletionLabel>)
    requires
        byte_len(label@) + 16 <= usize::MAX,
        match detail {
            Some(d) => byte_len(label@) + byte_len(d@) + 16 <= usize::MAX,
            None => true,
        },
    ensures
        match r {
            Some(l) => completion_label(kind, label@, opt_str(detail)) == Some(l@),
            None => completion_label(kind, label@, opt_str(detail)) is None,
        },
{
    match kind {
        Some(CompletionItemKind::Class) => Some(literal_completion_label(label, "type")),
        Some(CompletionItemKind::Function) => callable_completion_label(label, detail),
        Some(CompletionItemKind::Constructor) => callable_completion_label(label, detail),
        Some(CompletionItemKind::Method) => callable_completion_label(label, detail),
        Some(CompletionItemKind::Property) => property_completion_label(label, detail),
        Some(CompletionItemKind::Variable) => Some(literal_completion_label(label, "variable")),
        _ => None,
    }
}

/// `Some` of the characters of `o`'s string, if any.
pub open spec fn opt_str(o: Option<&str>) -> Option<Seq<char>> {
    match o {
        Some(s) => Some(s@),
        None => None,
    }
}

} // verus!
