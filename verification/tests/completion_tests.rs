use zed_dart::completion::{label_for_completion, CompletionItemKind, CompletionLabel, LabelSpan};
use zed_dart::lsp::{language_server_binary, language_server_command, workspace_configuration, DartBinary};

const ARROW: &str = " \u{e2}\u{2020}\u{2019} ";

fn code(start: usize, end: usize) -> (usize, usize) {
    (start, end)
}

fn code_range(span: &LabelSpan) -> Option<(usize, usize)> {
    match span {
        LabelSpan::CodeRange { start, end } => Some((*start, *end)),
        LabelSpan::Literal { .. } => None,
    }
}

fn literal(span: &LabelSpan) -> Option<(&str, Option<&str>)> {
    match span {
        LabelSpan::Literal { text, highlight } => Some((text.as_str(), highlight.as_deref())),
        LabelSpan::CodeRange { .. } => None,
    }
}

fn label(kind: CompletionItemKind, name: &str, detail: Option<&str>) -> Option<CompletionLabel> {
    label_for_completion(Some(kind), name, detail)
}

#[test]
fn class_and_variable_labels_are_literal() {
    let class = label(CompletionItemKind::Class, "Widget", None).expect("label");
    assert_eq!(class.code, "");
    assert_eq!(class.filter_start, 0);
    assert_eq!(class.filter_end, 6);
    assert_eq!(class.spans.len(), 1);
    assert_eq!(literal(&class.spans[0]), Some(("Widget", Some("type"))));

    let var = label(CompletionItemKind::Variable, "counté", Some("int")).expect("label");
    assert_eq!(var.filter_end, "counté".len());
    assert_eq!(literal(&var.spans[0]), Some(("counté", Some("variable"))));
}

#[test]
fn function_label_places_name_parameters_and_return_type() {
    let detail = format!("(int a, String b){ARROW}Future<void>");
    let l = label(CompletionItemKind::Method, "fetch(…)", Some(&detail)).expect("label");
    assert_eq!(l.code, "Future<void> a(int a, String b) => fetch();");
    assert_eq!(l.filter_start, 0);
    assert_eq!(l.filter_end, 5);
    assert_eq!(l.spans.len(), 4);
    let name_start = "Future<void> a(int a, String b) => ".len();
    assert_eq!(code_range(&l.spans[0]), Some(code(name_start, name_start + 5)));
    assert_eq!(code_range(&l.spans[1]), Some(code(14, 14 + "(int a, String b)".len())));
    assert_eq!(literal(&l.spans[2]), Some((ARROW, None)));
    assert_eq!(code_range(&l.spans[3]), Some(code(0, "Future<void>".len())));
    assert_eq!(&l.code[name_start..name_start + 5], "fetch");
}

#[test]
fn function_label_takes_the_text_up_to_a_second_arrow_as_return_type() {
    let detail = format!("(){ARROW}int{ARROW}extra");
    let l = label(CompletionItemKind::Function, "f()", Some(&detail)).expect("label");
    assert_eq!(l.code, "int a() => f();");
    let ctor = label(CompletionItemKind::Constructor, "Point(x, y)", Some(&format!("(int x, int y){ARROW}Point")))
        .expect("label");
    assert_eq!(ctor.code, "Point a(int x, int y) => Point();");
}

#[test]
fn function_label_needs_detail_parenthesis_and_arrow() {
    assert!(label(CompletionItemKind::Function, "f()", None).is_none());
    assert!(label(CompletionItemKind::Function, "f", Some(&format!("(){ARROW}int"))).is_none());
    assert!(label(CompletionItemKind::Function, "f()", Some("() -> int")).is_none());
}

#[test]
fn property_label_shows_type_and_name() {
    let l = label(CompletionItemKind::Property, "length", Some("int")).expect("label");
    assert_eq!(l.code, "class A {int get length => a; }");
    assert_eq!(code_range(&l.spans[0]), Some(code(17, 23)));
    assert_eq!(literal(&l.spans[1]), Some((ARROW, None)));
    assert_eq!(code_range(&l.spans[2]), Some(code(9, 12)));
    assert_eq!(l.filter_end, 6);
    assert!(label(CompletionItemKind::Property, "length", None).is_none());
}

#[test]
fn other_kinds_keep_the_default_label() {
    assert!(label(CompletionItemKind::Other, "x", Some("y")).is_none());
    assert!(label_for_completion(None, "x", Some("y")).is_none());
}

#[test]
fn language_server_binary_prefers_settings_then_path() {
    let b = language_server_binary(
        Some("/custom/dart".to_string()),
        Some(vec!["--x".to_string()]),
        Some("/usr/bin/dart".to_string()),
    )
    .expect("binary");
    assert_eq!(b.path, "/custom/dart");
    assert_eq!(b.args, Some(vec!["--x".to_string()]));

    let b = language_server_binary(None, None, Some("/usr/bin/dart".to_string())).expect("binary");
    assert_eq!(b.path, "/usr/bin/dart");
    assert_eq!(b.args, None);

    assert_eq!(
        language_server_binary(None, Some(Vec::new()), None).unwrap_err(),
        "dart must be installed from dart.dev/get-dart or pointed to by the LSP binary settings"
    );
}

#[test]
fn language_server_command_defaults_its_arguments() {
    let (path, args) = language_server_command(DartBinary { path: "/d".to_string(), args: None });
    assert_eq!(path, "/d");
    assert_eq!(args, vec!["language-server", "--protocol=lsp"]);
    let (_, args) = language_server_command(DartBinary { path: "/d".to_string(), args: Some(vec!["--v".to_string()]) });
    assert_eq!(args, vec!["--v"]);
}

#[test]
fn workspace_configuration_wraps_the_settings() {
    assert_eq!(workspace_configuration(None), "{\"dart\":null}");
    assert_eq!(workspace_configuration(Some("{\"lineLength\":100}")), "{\"dart\":{\"lineLength\":100}}");
}
