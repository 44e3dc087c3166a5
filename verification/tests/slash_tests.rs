use zed_dart::slash::{
    attach_action_output, attach_failure_message, build_devtools_url,
    build_flutter_attach_shell_script, complete_slash_command_argument,
    flutter_slash_command_help, hot_command_target_from_info_text, info_file_source_text, percent_encode_uri_component,
    quote_powershell_literal, resolve_flutter_hot_command_target_for_root, route_slash_command,
    attach_command_outcome, vm_probe_output, vm_probe_request, HotCommandTarget, SlashAction,
};
use zed_dart::vmservice::{select_latest_vm_service_info_file, vm_service_info_dir, InfoDirEntry};

fn strings(items: &[&str]) -> Vec<String> {
    items.iter().map(|s| s.to_string()).collect()
}

#[test]
fn build_devtools_url_accepts_http_and_ws_uris() {
    assert_eq!(
        build_devtools_url("http://127.0.0.1:50300/").expect("url"),
        "http://127.0.0.1:9100?uri=http%3A%2F%2F127.0.0.1%3A50300%2F"
    );
    assert_eq!(
        build_devtools_url("ws://127.0.0.1:50300/ws").expect("url"),
        "http://127.0.0.1:9100?uri=ws%3A%2F%2F127.0.0.1%3A50300%2Fws"
    );
}

#[test]
fn build_devtools_url_normalizes_bare_host_port_values() {
    assert_eq!(
        build_devtools_url("127.0.0.1:50300").expect("url"),
        "http://127.0.0.1:9100?uri=http%3A%2F%2F127.0.0.1%3A50300"
    );
}

#[test]
fn build_devtools_url_rejects_empty_values() {
    assert!(build_devtools_url("   ").is_err());
    assert_eq!(build_devtools_url("").unwrap_err(), "VM service URI is required");
}

#[test]
fn percent_encoding_of_uri_components() {
    assert_eq!(percent_encode_uri_component("aZ09-_.~"), "aZ09-_.~");
    assert_eq!(percent_encode_uri_component("a b/c?d=é"), "a%20b%2Fc%3Fd%3D%C3%A9");
    assert_eq!(percent_encode_uri_component(""), "");
}

#[test]
fn powershell_literals_double_their_quotes() {
    assert_eq!(quote_powershell_literal("it's"), "'it''s'");
    assert_eq!(quote_powershell_literal(""), "''");
    assert_eq!(quote_powershell_literal("''"), "''''''");
}

#[test]
fn build_flutter_attach_shell_script_includes_requested_action() {
    let script = build_flutter_attach_shell_script(
        "flutter",
        "C:\\src\\app's folder",
        "ws://127.0.0.1:50300/ws",
        'R',
        "hot restart",
    );

    assert!(script.contains("attach --debug-uri "));
    assert!(script.contains(" --project-root "));
    assert!(script.contains("--report-ready"));
    assert!(script.contains("$p.StandardInput.WriteLine('R');"));
    assert!(script.contains("hot restart"));
    assert!(script.contains("app''s folder"));
}

#[test]
fn build_flutter_attach_shell_script_quotes_every_value() {
    let script = build_flutter_attach_shell_script("fl'tr", "/p", "ws://h/ws", 'r', "hot reload");
    assert!(script.starts_with("$psi = New-Object System.Diagnostics.ProcessStartInfo;$psi.FileName = 'fl''tr';"));
    assert!(script.contains(
        "$psi.Arguments = 'attach --debug-uri ' + 'ws://h/ws' + ' --project-root ' + '/p' + ' --report-ready';"
    ));
    assert!(script.contains("$psi.WorkingDirectory = '/p';"));
    assert!(script.contains("throw 'Timed out waiting for flutter attach to exit after hot reload.'"));
    assert!(script.ends_with(
        "Write-Output ('Flutter hot reload requested via shell attach shim.' + [Environment]::NewLine + $combined.Trim())"
    ));
}

#[test]
fn resolve_flutter_hot_command_target_supports_direct_uris() {
    let target = resolve_flutter_hot_command_target_for_root("workspace", "127.0.0.1:50300").expect("target");
    match target {
        HotCommandTarget::Resolved { uri, source } => {
            assert_eq!(uri, "http://127.0.0.1:50300");
            assert_eq!(source, "Using provided VM service URI");
        }
        other => panic!("unexpected target {other:?}"),
    }
}

#[test]
fn resolve_flutter_hot_command_target_uses_latest_info_file_when_input_is_blank() {
    assert!(matches!(
        resolve_flutter_hot_command_target_for_root("/root", "  ").expect("target"),
        HotCommandTarget::LatestInfoFile
    ));
}

#[test]
fn resolve_flutter_hot_command_target_supports_relative_and_absolute_info_files() {
    match resolve_flutter_hot_command_target_for_root("/root", " .dart_tool/vm.json ").expect("target") {
        HotCommandTarget::InfoFile { path } => assert_eq!(path, "/root/.dart_tool/vm.json"),
        other => panic!("unexpected target {other:?}"),
    }
    match resolve_flutter_hot_command_target_for_root("/root", "/tmp/vm.json").expect("target") {
        HotCommandTarget::InfoFile { path } => assert_eq!(path, "/tmp/vm.json"),
        other => panic!("unexpected target {other:?}"),
    }
    match resolve_flutter_hot_command_target_for_root("/root", "vm.json").expect("target") {
        HotCommandTarget::InfoFile { path } => assert_eq!(path, "/root/vm.json"),
        other => panic!("unexpected target {other:?}"),
    }
    assert_eq!(
        info_file_source_text("/root/vm.json"),
        "Using VM service info file `/root/vm.json`"
    );
}

#[test]
fn attach_action_output_and_failures() {
    let o = attach_action_output("Using provided VM service URI".to_string(), "  Reloaded 1 of 2 libraries \n", "hot reload");
    assert_eq!(o.text, "Using provided VM service URI\nReloaded 1 of 2 libraries");
    assert_eq!(o.sections.len(), 1);
    assert_eq!(o.sections[0].end, o.text.len());
    assert_eq!(o.sections[0].label, "Flutter hot reload");

    let quiet = attach_action_output("src".to_string(), "   ", "hot restart");
    assert_eq!(quiet.text, "src");

    assert_eq!(attach_failure_message("hot reload", " boom ", "out"), "Failed to trigger Flutter hot reload: boom");
    assert_eq!(attach_failure_message("hot reload", "  ", " out "), "Failed to trigger Flutter hot reload: out");
    assert_eq!(attach_failure_message("hot restart", "", ""), "Failed to trigger Flutter hot restart");
}

#[test]
fn vm_probe_request_asks_for_the_vm() {
    assert_eq!(vm_probe_request(), "{\"id\":\"zed-dart-probe\",\"jsonrpc\":\"2.0\",\"method\":\"getVM\"}");
}

#[test]
fn flutter_help_lists_the_commands() {
    let o = flutter_slash_command_help();
    assert!(o.text.starts_with("Available Flutter slash commands:\n- `/flutter devices` or `/flutter-devices`"));
    assert!(o.text.ends_with("They are separate from Zed Agent-specific commands."));
    assert_eq!(o.sections[0].label, "Flutter Commands");
    assert_eq!(o.sections[0].end, o.text.len());
}

#[test]
fn routing_of_slash_commands() {
    match route_slash_command("flutter", &Vec::new(), false).expect("help") {
        SlashAction::Show(o) => assert_eq!(o.sections[0].label, "Flutter Commands"),
        other => panic!("unexpected action {other:?}"),
    }
    assert_eq!(
        route_slash_command("flutter", &strings(&["deploy"]), true).unwrap_err(),
        "Unknown Flutter subcommand `deploy`. Run `/flutter` to see the supported commands."
    );
    match route_slash_command("flutter", &strings(&["devices", "mac", "os"]), true).expect("devices") {
        SlashAction::ListDevices { query } => assert_eq!(query, "mac os"),
        other => panic!("unexpected action {other:?}"),
    }
    assert_eq!(
        route_slash_command("flutter-devices", &Vec::new(), false).unwrap_err(),
        "Worktree is required"
    );
    match route_slash_command("flutter-devtools", &strings(&["127.0.0.1:1"]), false).expect("url") {
        SlashAction::Show(o) => {
            assert_eq!(o.text, "http://127.0.0.1:9100?uri=http%3A%2F%2F127.0.0.1%3A1");
            assert_eq!(o.sections[0].label, "DevTools URL");
        }
        other => panic!("unexpected action {other:?}"),
    }
    match route_slash_command("flutter", &strings(&["hot-restart"]), true).expect("restart") {
        SlashAction::AttachAction { input, action_key, action_label } => {
            assert_eq!(input, "");
            assert_eq!(action_key, 'R');
            assert_eq!(action_label, "hot restart");
        }
        other => panic!("unexpected action {other:?}"),
    }
    match route_slash_command("flutter-hot-reload", &strings(&["vm.json"]), true).expect("reload") {
        SlashAction::AttachAction { input, action_key, .. } => {
            assert_eq!(input, "vm.json");
            assert_eq!(action_key, 'r');
        }
        other => panic!("unexpected action {other:?}"),
    }
    assert_eq!(route_slash_command("flutter-hot-reload", &Vec::new(), false).unwrap_err(), "Worktree is required");
    match route_slash_command("flutter-vm-probe", &strings(&["ws://h/ws"]), false).expect("probe") {
        SlashAction::ProbeVmService { uri } => assert_eq!(uri, "ws://h/ws"),
        other => panic!("unexpected action {other:?}"),
    }
    assert_eq!(route_slash_command("other", &Vec::new(), true).unwrap_err(), "Invalid slash command.");
}

#[test]
fn slash_command_argument_completions() {
    let all = complete_slash_command_argument("flutter", &Vec::new());
    let labels: Vec<&str> = all.iter().map(|c| c.label.as_str()).collect();
    assert_eq!(
        labels,
        vec![
            "devices",
            "devtools http://127.0.0.1:12345/",
            "hot-reload",
            "hot-restart",
            "vm-probe ws://127.0.0.1:12345/ws"
        ]
    );
    assert!(all.iter().all(|c| c.run_command && c.label == c.new_text));

    let hot = complete_slash_command_argument("flutter", &strings(&["HOT"]));
    let labels: Vec<&str> = hot.iter().map(|c| c.label.as_str()).collect();
    assert_eq!(labels, vec!["hot-reload", "hot-restart"]);

    let devices = complete_slash_command_argument("flutter-devices", &strings(&["o"]));
    let labels: Vec<&str> = devices.iter().map(|c| c.label.as_str()).collect();
    assert_eq!(labels, vec!["chrome", "macos", "windows", "android", "ios"]);

    let uris = complete_slash_command_argument("flutter-vm-probe", &strings(&["ws"]));
    let labels: Vec<&str> = uris.iter().map(|c| c.label.as_str()).collect();
    assert_eq!(labels, vec!["ws://127.0.0.1:12345/ws"]);

    assert!(complete_slash_command_argument("unknown", &Vec::new()).is_empty());
}

#[test]
fn resolve_flutter_hot_command_target_uses_latest_info_file_when_input_is_empty() {
    let root = "/tmp/zed-dart-test";
    assert!(matches!(
        resolve_flutter_hot_command_target_for_root(root, "").expect("target"),
        HotCommandTarget::LatestInfoFile
    ));
    let info_dir = vm_service_info_dir(root);
    let entries = vec![
        InfoDirEntry { name: "older.json".to_string(), modified_nanos: 1_000 },
        InfoDirEntry { name: "newer.json".to_string(), modified_nanos: 6_000_000 },
    ];
    let path = select_latest_vm_service_info_file(&info_dir, &entries).expect("target");
    let (uri, source) =
        hot_command_target_from_info_text(&path, r#"{ "uri": "ws://127.0.0.1:50301/ws" }"#).expect("target");
    assert_eq!(uri, "ws://127.0.0.1:50301/ws");
    assert!(source.contains("newer.json"));
}

#[test]
fn resolve_flutter_hot_command_target_supports_relative_info_file_paths() {
    let path = match resolve_flutter_hot_command_target_for_root("/tmp/root", ".dart_tool/vm.json").expect("target") {
        HotCommandTarget::InfoFile { path } => path,
        other => panic!("unexpected target {other:?}"),
    };
    let (uri, source) =
        hot_command_target_from_info_text(&path, r#"{ "uri": "127.0.0.1:50300" }"#).expect("target");
    assert_eq!(uri, "http://127.0.0.1:50300");
    assert!(source.contains(".dart_tool"));
}

#[test]
fn resolve_flutter_hot_command_target_reads_scheme_uris_as_uris() {
    for (input, expected) in [
        ("ws://127.0.0.1:50300/ws", "ws://127.0.0.1:50300/ws"),
        (" http://127.0.0.1:12345/ ", "http://127.0.0.1:12345/"),
        ("wss://h/ws.json", "wss://h/ws.json"),
    ] {
        match resolve_flutter_hot_command_target_for_root("workspace", input).expect("target") {
            HotCommandTarget::Resolved { uri, source } => {
                assert_eq!(uri, expected);
                assert_eq!(source, "Using provided VM service URI");
            }
            other => panic!("unexpected target {other:?}"),
        }
    }
}

#[test]
fn hot_command_target_from_an_info_file() {
    assert_eq!(
        hot_command_target_from_info_text("/r/vm.json", r#"{"uri": " 127.0.0.1:1 "}"#).expect("target"),
        ("http://127.0.0.1:1".to_string(), "Using VM service info file `/r/vm.json`".to_string())
    );
    assert_eq!(
        hot_command_target_from_info_text("/r/vm.json", "{}").unwrap_err(),
        "VM service info file `/r/vm.json` does not contain a supported URI field"
    );
    assert_eq!(
        hot_command_target_from_info_text("/r/vm.json", r#"{"uri": "  "}"#).unwrap_err(),
        "VM service URI is required"
    );
    assert!(hot_command_target_from_info_text("/r/vm.json", "{").unwrap_err().starts_with("Invalid VM service info JSON in `/r/vm.json`: "));
}

#[test]
fn attach_command_outcome_uses_the_exit_status() {
    let ok = attach_command_outcome(Some(0), " Reloaded \n", "", "src".to_string(), "hot reload").expect("output");
    assert_eq!(ok.text, "src\nReloaded");
    assert_eq!(
        attach_command_outcome(Some(2), "out", " err ", "src".to_string(), "hot restart").unwrap_err(),
        "Failed to trigger Flutter hot restart: err"
    );
}

#[test]
fn vm_probe_output_pretty_prints_the_reply() {
    let o = vm_probe_output("ws://h/ws", "{\"result\":{\"type\":\"VM\",\"name\":\"vm\"},\"id\":\"x\"}")
        .expect("output");
    assert_eq!(o.text, "{\n  \"id\": \"x\",\n  \"result\": {\n    \"name\": \"vm\",\n    \"type\": \"VM\"\n  }\n}");
    assert_eq!(o.sections.len(), 1);
    assert_eq!(o.sections[0].end, o.text.len());
    assert_eq!(o.sections[0].label, "Flutter VM Probe");

    let err = vm_probe_output("ws://h/ws", "{ not json").unwrap_err();
    assert!(err.starts_with("Invalid VM service JSON response from `ws://h/ws`: key must be a string"));
}
