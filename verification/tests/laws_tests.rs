use serde_json::Value;
use zed_dart::completion::{label_for_completion, CompletionItemKind, LabelSpan};
use zed_dart::scenario::{
    dap_config_to_scenario, flutter_mode_from_tool_args, normalize_path, DebugConfigSpec,
    DebugRequestSpec, PackageManifest,
};

fn launch_config(program: &str, cwd: Option<String>, args: Vec<String>, envs: Vec<(String, String)>) -> String {
    let none: Vec<PackageManifest> = Vec::new();
    dap_config_to_scenario(
        DebugConfigSpec {
            label: "Run".to_string(),
            adapter: "Dart".to_string(),
            request: DebugRequestSpec::Launch { program: program.to_string(), cwd, args, envs },
            stop_on_entry: Some(true),
        },
        &none,
    )
    .expect("scenario")
    .config
}
use zed_dart::slash::{build_devtools_url, quote_powershell_literal};
use zed_dart::vmservice::{normalize_vm_service_uri, vm_service_websocket_uri};

fn strings(items: &[&str]) -> Vec<String> {
    items.iter().map(|s| s.to_string()).collect()
}

fn percent_decode(text: &str) -> Vec<u8> {
    let bytes = text.as_bytes();
    let mut out = Vec::new();
    let mut i = 0;
    while i < bytes.len() {
        if bytes[i] == b'%' && i + 2 < bytes.len() {
            let hex = std::str::from_utf8(&bytes[i + 1..i + 3]).expect("hex");
            out.push(u8::from_str_radix(hex, 16).expect("hex digits"));
            i += 3;
        } else {
            out.push(bytes[i]);
            i += 1;
        }
    }
    out
}

#[test]
fn devtools_url_decodes_to_the_normalized_uri() {
    for input in ["127.0.0.1:50300", " ws://h:1/ws?x=é ", "https://[::1]:8/a b"] {
        let url = build_devtools_url(input).expect("url");
        let (prefix, query) = url.split_at(26);
        assert_eq!(prefix, "http://127.0.0.1:9100?uri=");
        let normalized = normalize_vm_service_uri(input).expect("uri");
        assert_eq!(percent_decode(query), normalized.as_bytes());
    }
}

#[test]
fn websocket_uri_of_a_websocket_uri_is_itself() {
    for input in ["127.0.0.1:1", "http://h/", "https://h:2/p/", "ws://h/ws", "http://"] {
        let once = vm_service_websocket_uri(input).expect("uri");
        assert!(once.starts_with("ws://") || once.starts_with("wss://"));
        assert_eq!(vm_service_websocket_uri(&once).expect("uri"), once);
    }
    assert_eq!(vm_service_websocket_uri("http://").expect("uri"), "ws:///ws");
}

#[test]
fn normalized_paths_stay_normalized() {
    let once = normalize_path("C:\\a\\\\b/c");
    assert_eq!(once, "C:/a//b/c");
    assert!(!once.contains('\\'));
    assert_eq!(normalize_path(&once), once);
}

#[test]
fn splitting_the_mode_twice_finds_debug() {
    let (_, rest) = flutter_mode_from_tool_args(&strings(&["--release", "--flavor", "--profile", "x"]));
    assert_eq!(rest, strings(&["--flavor", "x"]));
    let (mode, again) = flutter_mode_from_tool_args(&rest);
    assert_eq!(mode, "debug");
    assert_eq!(again, rest);
}

#[test]
fn json_strings_read_back_as_written() {
    let tricky = "quote\" backslash\\ newline\n tab\t bell\u{7} del\u{7f} é 😀";
    let text = launch_config(
        tricky,
        Some(tricky.to_string()),
        strings(&[tricky, ""]),
        vec![(tricky.to_string(), tricky.to_string())],
    );
    let parsed: Value = serde_json::from_str(&text).expect("valid json");
    assert_eq!(parsed["program"], tricky);
    assert_eq!(parsed["cwd"], tricky);
    assert_eq!(parsed["args"][0], tricky);
    assert_eq!(parsed["args"][1], "");
    assert_eq!(parsed["env"][tricky], tricky);
    assert_eq!(serde_json::to_string(&parsed).expect("json"), text);
}

#[test]
fn environment_objects_are_sorted_and_keep_the_last_value() {
    let text = launch_config(
        "bin/main.dart",
        None,
        Vec::new(),
        vec![
            ("B".to_string(), "1".to_string()),
            ("A".to_string(), "2".to_string()),
            ("B".to_string(), "3".to_string()),
            ("a".to_string(), "4".to_string()),
        ],
    );
    assert!(text.contains("\"env\":{\"A\":\"2\",\"B\":\"3\",\"a\":\"4\"}"));
}

#[test]
fn powershell_quoting_reads_back() {
    for value in ["", "plain", "it's", "''", "a'b'c"] {
        let q = quote_powershell_literal(value);
        assert!(q.starts_with('\'') && q.ends_with('\''));
        assert_eq!(q[1..q.len() - 1].replace("''", "'"), value);
    }
}

#[test]
fn label_code_ranges_pick_out_their_text() {
    let detail = "(Map<String, int> m) \u{e2}\u{2020}\u{2019} List<é>";
    let l = label_for_completion(Some(CompletionItemKind::Function), "löad(m)", Some(detail)).expect("label");
    let text = |span: &LabelSpan| match span {
        LabelSpan::CodeRange { start, end } => l.code[*start..*end].to_string(),
        LabelSpan::Literal { text, .. } => text.clone(),
    };
    assert_eq!(text(&l.spans[0]), "löad");
    assert_eq!(text(&l.spans[1]), "(Map<String, int> m)");
    assert_eq!(text(&l.spans[3]), "List<é>");

    let p = label_for_completion(Some(CompletionItemKind::Property), "größe", Some("Größe")).expect("label");
    match (&p.spans[0], &p.spans[2]) {
        (LabelSpan::CodeRange { start: a, end: b }, LabelSpan::CodeRange { start: c, end: d }) => {
            assert_eq!(&p.code[*a..*b], "größe");
            assert_eq!(&p.code[*c..*d], "Größe");
        }
        _ => panic!("unexpected spans"),
    }
}
