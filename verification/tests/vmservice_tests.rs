use zed_dart::vmservice::{
    ensure_vm_service_ws_path, generated_vm_service_info_file, normalize_vm_service_uri,
    plan_vm_service_info_file, select_latest_vm_service_info_file, vm_service_info_dir,
    vm_service_uri_from_info_fields, vm_service_uri_from_info_text, vm_service_websocket_uri,
    InfoDirEntry, InfoFileFields,
    InfoFilePlan,
};

fn fields(uri: Option<&str>, vm: Option<&str>, ws: Option<&str>, ws_snake: Option<&str>) -> InfoFileFields {
    InfoFileFields {
        uri: uri.map(|s| s.to_string()),
        vm_service_uri: vm.map(|s| s.to_string()),
        ws_uri: ws.map(|s| s.to_string()),
        ws_uri_snake: ws_snake.map(|s| s.to_string()),
    }
}

fn entry(name: &str, modified_nanos: u128) -> InfoDirEntry {
    InfoDirEntry { name: name.to_string(), modified_nanos }
}

#[test]
fn normalize_vm_service_uri_accepts_bare_host_port_values() {
    assert_eq!(normalize_vm_service_uri("127.0.0.1:50300").expect("uri"), "http://127.0.0.1:50300");
    assert_eq!(normalize_vm_service_uri("ws://127.0.0.1:50300/ws").expect("uri"), "ws://127.0.0.1:50300/ws");
}

#[test]
fn normalize_vm_service_uri_rejects_empty_values() {
    assert!(normalize_vm_service_uri(" ").is_err());
    assert_eq!(normalize_vm_service_uri("\n\t").unwrap_err(), "VM service URI is required");
}

#[test]
fn normalize_vm_service_uri_trims_and_keeps_known_schemes() {
    assert_eq!(normalize_vm_service_uri("  https://h:1/x  ").expect("uri"), "https://h:1/x");
    assert_eq!(normalize_vm_service_uri("wss://h/ws").expect("uri"), "wss://h/ws");
    assert_eq!(normalize_vm_service_uri("ftp://h").expect("uri"), "http://ftp://h");
}

#[test]
fn normalizing_twice_changes_nothing() {
    for input in ["127.0.0.1:50300", " ws://h/ws ", "https://h/"] {
        let once = normalize_vm_service_uri(input).expect("uri");
        assert_eq!(normalize_vm_service_uri(&once).expect("uri"), once);
    }
}

#[test]
fn vm_service_websocket_uri_normalizes_http_and_ws_inputs() {
    assert_eq!(vm_service_websocket_uri("127.0.0.1:50300").expect("uri"), "ws://127.0.0.1:50300/ws");
    assert_eq!(vm_service_websocket_uri("http://127.0.0.1:50300/").expect("uri"), "ws://127.0.0.1:50300/ws");
    assert_eq!(vm_service_websocket_uri("ws://127.0.0.1:50300/ws").expect("uri"), "ws://127.0.0.1:50300/ws");
}

#[test]
fn vm_service_websocket_uri_for_https_and_paths() {
    assert_eq!(vm_service_websocket_uri("https://h:1/abc=/").expect("uri"), "wss://h:1/abc=/ws");
    assert_eq!(vm_service_websocket_uri("http://h:1/abc=").expect("uri"), "ws://h:1/abc=");
    assert_eq!(vm_service_websocket_uri("wss://h/ws").expect("uri"), "wss://h/ws");
    assert!(vm_service_websocket_uri("   ").is_err());
}

#[test]
fn ensure_vm_service_ws_path_cases() {
    assert_eq!(ensure_vm_service_ws_path("h:1/ws"), "h:1/ws");
    assert_eq!(ensure_vm_service_ws_path("h:1/ws/"), "h:1/ws");
    assert_eq!(ensure_vm_service_ws_path("h:1/ws//"), "h:1/ws//ws");
    assert_eq!(ensure_vm_service_ws_path("h:1/"), "h:1/ws");
    assert_eq!(ensure_vm_service_ws_path("h:1/token"), "h:1/token");
    assert_eq!(ensure_vm_service_ws_path("h:1"), "h:1/ws");
}

#[test]
fn ensure_vm_service_ws_path_is_idempotent() {
    for input in ["h:1", "h:1/", "h:1/ws/", "h:1/a"] {
        let once = ensure_vm_service_ws_path(input);
        assert_eq!(ensure_vm_service_ws_path(&once), once);
    }
}

#[test]
fn info_directory_and_generated_files() {
    assert_eq!(vm_service_info_dir("/work"), "/work/.zed/dart/vmservice-info");
    assert_eq!(vm_service_info_dir("/work/"), "/work/.zed/dart/vmservice-info");
    let first = generated_vm_service_info_file("/work/.zed/dart/vmservice-info", 7, 100);
    let second = generated_vm_service_info_file("/work/.zed/dart/vmservice-info", 7, 101);
    assert_eq!(first, "/work/.zed/dart/vmservice-info/flutter-vmservice-7-100.json");
    assert_ne!(first, second);
    assert!(first.contains("flutter-vmservice-"));
    assert_ne!(
        generated_vm_service_info_file("/d", 1, 23),
        generated_vm_service_info_file("/d", 12, 3)
    );
}

#[test]
fn info_file_plans() {
    assert!(matches!(
        plan_vm_service_info_file("/w", "dart", "launch", Some("x.json")),
        InfoFilePlan::Use(p) if p == "x.json"
    ));
    assert!(matches!(plan_vm_service_info_file("/w", "dart", "launch", None), InfoFilePlan::NotNeeded));
    assert!(matches!(plan_vm_service_info_file("/w", "flutter", "attach", None), InfoFilePlan::NotNeeded));
    assert!(matches!(
        plan_vm_service_info_file("/w", "flutter", "launch", None),
        InfoFilePlan::Generate { directory } if directory == "/w/.zed/dart/vmservice-info"
    ));
}

#[test]
fn read_vm_service_uri_from_info_file_supports_common_keys() {
    let uri = vm_service_uri_from_info_text("vmservice.json", r#"{ "uri": "ws://127.0.0.1:50300/ws" }"#)
        .expect("uri");
    assert_eq!(uri, "ws://127.0.0.1:50300/ws");

    let by_ws = vm_service_uri_from_info_text("f.json", r#"{ "uri": 5, "wsUri": "127.0.0.1:1", "ws_uri": "x" }"#)
        .expect("uri");
    assert_eq!(by_ws, "http://127.0.0.1:1");
    let by_snake = vm_service_uri_from_info_text("f.json", r#"{ "ws_uri": "ws://a/ws" }"#).expect("uri");
    assert_eq!(by_snake, "ws://a/ws");
    let first_wins =
        vm_service_uri_from_info_text("f.json", r#"{ "vmServiceUri": "ws://v/ws", "uri": "ws://u/ws" }"#)
            .expect("uri");
    assert_eq!(first_wins, "ws://u/ws");
    let by_fields = vm_service_uri_from_info_fields("f.json", &fields(None, Some("h:2"), None, None)).expect("uri");
    assert_eq!(by_fields, "http://h:2");
}

#[test]
fn read_vm_service_uri_from_info_file_rejects_invalid_json() {
    let err = vm_service_uri_from_info_text("/r/vmservice.json", "{ not json").unwrap_err();
    assert!(err.starts_with("Invalid VM service info JSON in `/r/vmservice.json`: "));
}

#[test]
fn info_file_without_uri_is_an_error() {
    assert_eq!(
        vm_service_uri_from_info_fields("/w/vm.json", &fields(None, None, None, None)).unwrap_err(),
        "VM service info file `/w/vm.json` does not contain a supported URI field"
    );
    assert_eq!(
        vm_service_uri_from_info_text("/w/vm.json", "[1]").unwrap_err(),
        "VM service info file `/w/vm.json` does not contain a supported URI field"
    );
    assert_eq!(
        vm_service_uri_from_info_fields("/w/vm.json", &fields(Some(" "), None, None, None)).unwrap_err(),
        "VM service URI is required"
    );
}

#[test]
fn latest_info_file_is_the_newest_json_file() {
    let dir = "/root/.zed/dart/vmservice-info";
    let entries = vec![
        entry("older.json", 10),
        entry("notes.txt", 99),
        entry("newer.json", 20),
        entry(".json", 50),
    ];
    assert_eq!(
        select_latest_vm_service_info_file(dir, &entries).expect("latest"),
        "/root/.zed/dart/vmservice-info/newer.json"
    );

    let ties = vec![entry("a.json", 5), entry("b.json", 5)];
    assert_eq!(select_latest_vm_service_info_file(dir, &ties).expect("latest"), format!("{dir}/b.json"));

    assert_eq!(
        select_latest_vm_service_info_file(dir, &vec![entry("readme", 1)]).unwrap_err(),
        "No VM service info files found in `/root/.zed/dart/vmservice-info`. Start a Flutter debug launch first or provide a VM service URI."
    );
}

#[test]
fn resolve_vm_service_info_file_path_generates_unique_flutter_launch_files() {
    let directory = match plan_vm_service_info_file("/tmp/zed-dart-test", "flutter", "launch", None) {
        InfoFilePlan::Generate { directory } => directory,
        other => panic!("unexpected plan {other:?}"),
    };
    let first = generated_vm_service_info_file(&directory, 4242, 1_700_000_000_000_000_001);
    let second = generated_vm_service_info_file(&directory, 4242, 1_700_000_000_000_000_002);

    assert_ne!(first, second);
    assert!(first.contains("flutter-vmservice-"));
    assert!(std::path::Path::new(&first).parent().expect("parent").ends_with("vmservice-info"));
}
