use serde_json::Value;
use zed_dart::adapter::{
    build_dap_configuration, user_debug_config_from_json, build_debug_adapter_binary_from_config, dap_request_kind_from_config,
    dart_bat_candidate, ensure_flutter_device_tool_args, plan_dap_configuration,
    preferred_windows_tool_path, tool_binary_for_os, tool_command_path, tool_name, ConfigValue,
    HostOs, RequestKind, UserDebugConfig,
};
use zed_dart::vmservice::{generated_vm_service_info_file, InfoFilePlan};

fn cfg(text: &str) -> UserDebugConfig {
    user_debug_config_from_json(text).expect("valid config")
}

fn empty_config() -> UserDebugConfig {
    UserDebugConfig {
        debug_type: None,
        request: None,
        program: None,
        cwd: None,
        args: Vec::new(),
        env: Vec::new(),
        stop_on_entry: None,
        flutter_mode: None,
        device_id: None,
        platform: None,
        tool_args: Vec::new(),
        vm_service_uri: None,
        vm_service_info_file: None,
        additional_project_paths: Vec::new(),
        custom_tool: None,
        custom_tool_replaces_args: None,
        no_debug: None,
        debug_sdk_libraries: None,
        debug_external_package_libraries: None,
        evaluate_getters_in_debug_views: None,
        evaluate_to_string_in_debug_views: None,
        send_custom_progress_events: None,
        use_fvm: None,
    }
}

fn request(text: &str) -> Option<ConfigValue> {
    Some(ConfigValue { text: Some(text.to_string()), debug_repr: format!("String({text:?})") })
}

fn strings(items: &[&str]) -> Vec<String> {
    items.iter().map(|s| s.to_string()).collect()
}

fn string_array(items: &[&str]) -> Value {
    Value::Array(items.iter().map(|s| Value::String(s.to_string())).collect())
}

/// Builds the configuration as the extension does: a Flutter launch gets a
/// freshly named info file in the planned directory.
fn configure(
    config: &UserDebugConfig,
    root: &str,
) -> Result<(String, Vec<(String, String)>, Option<String>), String> {
    let generated = match plan_dap_configuration(config, root)? {
        InfoFilePlan::Generate { directory } => {
            Some(generated_vm_service_info_file(&directory, 4242, 1_700_000_000_123_456_789))
        }
        _ => None,
    };
    build_dap_configuration(config, root, generated)
}

fn parse(text: &str) -> Value {
    serde_json::from_str(text).expect("valid generated json")
}

#[test]
fn request_kind_supports_launch_and_attach() {
    let launch = cfg(r#"{ "request": "launch" }"#);
    let attach = cfg(r#"{ "request": "attach" }"#);

    assert!(matches!(dap_request_kind_from_config(&launch), Ok(RequestKind::Launch)));
    assert!(matches!(dap_request_kind_from_config(&attach), Ok(RequestKind::Attach)));
}

#[test]
fn request_kind_rejects_missing_or_invalid_values() {
    let missing = cfg("{}");
    let invalid = cfg(r#"{ "request": "weird" }"#);

    assert!(dap_request_kind_from_config(&missing).is_err());
    assert!(dap_request_kind_from_config(&invalid).is_err());
}

#[test]
fn request_kind_error_messages() {
    assert_eq!(
        dap_request_kind_from_config(&empty_config()).unwrap_err(),
        "Missing required `request` field in Dart debug adapter configuration"
    );
    let mut invalid = empty_config();
    invalid.request = request("weird");
    assert_eq!(
        dap_request_kind_from_config(&invalid).unwrap_err(),
        "Unexpected value for `request` key in Dart debug adapter configuration: String(\"weird\")"
    );
    let mut number = empty_config();
    number.request = Some(ConfigValue { text: None, debug_repr: "Number(1)".to_string() });
    assert_eq!(
        dap_request_kind_from_config(&number).unwrap_err(),
        "Unexpected value for `request` key in Dart debug adapter configuration: Number(1)"
    );
}

#[test]
fn build_dap_configuration_uses_debug_mode_and_optional_fields() {
    let user_config = cfg(
        r#"{
        "type": "flutter",
        "request": "attach",
        "program": "lib/main.dart",
        "cwd": "example",
        "args": ["--flavor=dev"],
        "env": {
            "FOO": "bar"
        },
        "flutterMode": "profile",
        "device_id": "macos",
        "platform": "desktop",
        "stopOnEntry": true,
        "vmServiceUri": "ws://127.0.0.1:8181/ws",
        "customTool": "wrapper",
        "customToolReplacesArgs": 1,
        "additionalProjectPaths": ["../shared", "../packages"],
        "noDebug": false,
        "debugSdkLibraries": true,
        "debugExternalPackageLibraries": false,
        "evaluateGettersInDebugViews": true,
        "evaluateToStringInDebugViews": true,
        "sendCustomProgressEvents": true
    }"#,
    );

    let (config_json, env, cwd) = configure(&user_config, "workspace").expect("valid config");
    let parsed = parse(&config_json);

    assert_eq!(parsed["type"], "flutter");
    assert_eq!(parsed["request"], "attach");
    assert_eq!(parsed["program"], "lib/main.dart");
    assert_eq!(parsed["cwd"], "example");
    assert_eq!(parsed["args"], string_array(&["--flavor=dev"]));
    assert_eq!(parsed["flutterMode"], "profile");
    assert_eq!(parsed["deviceId"], "macos");
    assert_eq!(parsed["platform"], "desktop");
    assert_eq!(parsed["stopOnEntry"], true);
    assert_eq!(parsed["vmServiceUri"], "ws://127.0.0.1:8181/ws");
    assert_eq!(parsed["customTool"], "wrapper");
    assert_eq!(parsed["customToolReplacesArgs"], 1);
    assert_eq!(parsed["additionalProjectPaths"], string_array(&["../shared", "../packages"]));
    assert_eq!(parsed["noDebug"], false);
    assert_eq!(parsed["debugSdkLibraries"], true);
    assert_eq!(parsed["debugExternalPackageLibraries"], false);
    assert_eq!(parsed["evaluateGettersInDebugViews"], true);
    assert_eq!(parsed["evaluateToStringInDebugViews"], true);
    assert_eq!(parsed["sendCustomProgressEvents"], true);
    assert_eq!(parsed["sendLogsToClient"], true);
    assert!(parsed.get("toolArgs").is_none());
    assert_eq!(env, vec![("FOO".to_string(), "bar".to_string())]);
    assert_eq!(cwd, Some("example".to_string()));
}

#[test]
fn build_dap_configuration_supports_vm_service_info_file_for_attach() {
    let user_config = cfg(r#"{ "type": "flutter", "request": "attach", "vmServiceInfoFile": ".dart_tool/vm.json" }"#);

    let (config_json, _, _) = configure(&user_config, "workspace").expect("valid config");
    let parsed = parse(&config_json);

    assert_eq!(parsed["vmServiceInfoFile"], ".dart_tool/vm.json");
    assert!(parsed.get("vmServiceUri").is_none());
}

#[test]
fn build_dap_configuration_does_not_add_vm_service_info_file_for_dart_launches() {
    let user_config = cfg(r#"{ "type": "dart", "request": "launch", "program": "bin/main.dart" }"#);

    let (config_json, _, _) = configure(&user_config, "workspace").expect("valid config");
    let parsed = parse(&config_json);

    assert!(parsed.get("vmServiceInfoFile").is_none());
}

#[test]
fn build_dap_configuration_does_not_add_vm_service_info_file_for_flutter_attach() {
    let user_config = cfg(r#"{ "type": "flutter", "request": "attach", "program": "lib/main.dart" }"#);

    let (config_json, _, _) = configure(&user_config, "workspace").expect("valid config");
    let parsed = parse(&config_json);

    assert!(parsed.get("vmServiceInfoFile").is_none());
}

#[test]
fn build_dap_configuration_rejects_both_vm_service_uri_and_info_file() {
    let user_config = cfg(r#"{ "type": "flutter", "request": "attach", "vmServiceUri": "ws://127.0.0.1:8181/ws", "vmServiceInfoFile": ".dart_tool/vm.json" }"#);

    assert!(configure(&user_config, "workspace").is_err());
}

#[test]
fn build_dap_configuration_error_messages() {
    let mut both = empty_config();
    both.debug_type = Some("flutter".to_string());
    both.vm_service_uri = Some("ws://127.0.0.1:8181/ws".to_string());
    both.vm_service_info_file = Some(".dart_tool/vm.json".to_string());
    assert_eq!(
        build_dap_configuration(&both, "workspace", None).unwrap_err(),
        "Provide only one of `vmServiceUri` or `vmServiceInfoFile` in Dart debug adapter configuration"
    );

    let missing = empty_config();
    assert_eq!(
        build_dap_configuration(&missing, "workspace", None).unwrap_err(),
        "type is required and cannot be empty or null"
    );
    let mut blank = empty_config();
    blank.debug_type = Some(" \t ".to_string());
    assert_eq!(
        build_dap_configuration(&blank, "workspace", None).unwrap_err(),
        "type is required and cannot be empty or null"
    );
}

#[test]
fn build_dap_configuration_omits_optional_fields_when_absent() {
    let user_config = cfg(r#"{ "type": "dart" }"#);

    let (config_json, env, cwd) = configure(&user_config, "workspace").expect("valid config");
    let parsed = parse(&config_json);

    assert_eq!(parsed["type"], "dart");
    assert_eq!(parsed["request"], "launch");
    assert_eq!(parsed["program"], "lib/main.dart");
    assert_eq!(parsed["cwd"], "workspace");
    assert_eq!(parsed["flutterMode"], "debug");
    assert_eq!(parsed["deviceId"], "chrome");
    assert_eq!(parsed["platform"], "web");
    assert_eq!(parsed["stopOnEntry"], false);
    assert!(parsed.get("toolArgs").is_none());
    assert!(parsed.get("vmServiceUri").is_none());
    assert!(env.is_empty());
    assert_eq!(cwd, Some("workspace".to_string()));
}

#[test]
fn build_dap_configuration_writes_exact_json() {
    let mut user_config = empty_config();
    user_config.debug_type = Some("dart".to_string());

    let (config_json, _, _) =
        build_dap_configuration(&user_config, "work\"space", None).expect("valid config");
    assert_eq!(
        config_json,
        "{\"args\":[],\"cwd\":\"work\\\"space\",\"deviceId\":\"chrome\",\"flutterMode\":\"debug\",\
         \"platform\":\"web\",\"program\":\"lib/main.dart\",\"request\":\"launch\",\
         \"sendLogsToClient\":true,\"stopOnEntry\":false,\"type\":\"dart\"}"
    );
}

#[test]
fn build_dap_configuration_adds_flutter_device_tool_args_for_launch() {
    let user_config = cfg(r#"{ "type": "flutter", "request": "launch", "device_id": "android" }"#);

    let (config_json, _, _) = configure(&user_config, "workspace").expect("valid config");
    let parsed = parse(&config_json);

    assert_eq!(parsed["toolArgs"], string_array(&["-d", "android"]));
    assert!(parsed["vmServiceInfoFile"].as_str().is_some());
}

#[test]
fn build_dap_configuration_generated_info_file_lives_in_the_info_directory() {
    let mut user_config = empty_config();
    user_config.debug_type = Some("flutter".to_string());

    let (config_json, _, _) = configure(&user_config, "/work").expect("valid config");
    let parsed = parse(&config_json);
    assert_eq!(
        parsed["vmServiceInfoFile"],
        "/work/.zed/dart/vmservice-info/flutter-vmservice-4242-1700000000123456789.json"
    );
}

#[test]
fn build_dap_configuration_does_not_override_explicit_device_tool_args() {
    let user_config = cfg(r#"{ "type": "flutter", "request": "launch", "device_id": "android", "toolArgs": ["--device-id=macos"] }"#);

    let (config_json, _, _) = configure(&user_config, "workspace").expect("valid config");
    let parsed = parse(&config_json);

    assert_eq!(parsed["toolArgs"], string_array(&["--device-id=macos"]));
}

#[test]
fn build_dap_configuration_does_not_add_device_tool_args_for_attach() {
    let user_config = cfg(r#"{ "type": "flutter", "request": "attach", "device_id": "android" }"#);

    let (config_json, _, _) = configure(&user_config, "workspace").expect("valid config");
    let parsed = parse(&config_json);

    assert!(parsed.get("toolArgs").is_none());
}

#[test]
fn build_debug_adapter_binary_supports_fvm_for_dart() {
    let config = cfg(r#"{ "type": "dart", "request": "launch", "program": "bin/main.dart", "useFvm": true }"#);

    let binary = build_debug_adapter_binary_from_config(&config, "workspace", None, "dart")
        .expect("adapter binary");
    assert_eq!(binary.command.as_deref(), Some("fvm"));
    assert_eq!(binary.arguments, vec!["dart", "debug_adapter"]);
}

#[test]
fn build_debug_adapter_binary_supports_fvm_for_flutter() {
    let config = cfg(r#"{ "type": "flutter", "request": "launch", "program": "lib/main.dart", "useFvm": true }"#);

    let binary = build_debug_adapter_binary_from_config(&config, "workspace", None, "flutter")
        .expect("adapter binary");
    assert_eq!(binary.command.as_deref(), Some("fvm"));
    assert_eq!(binary.arguments, vec!["flutter", "debug_adapter"]);
}

#[test]
fn build_debug_adapter_binary_uses_the_tool_command_without_fvm() {
    let mut config = empty_config();
    config.debug_type = Some("dart".to_string());
    config.request = request("attach");

    let binary = build_debug_adapter_binary_from_config(&config, "workspace", None, "/sdk/bin/dart")
        .expect("adapter binary");
    assert_eq!(binary.command.as_deref(), Some("/sdk/bin/dart"));
    assert_eq!(binary.arguments, vec!["debug_adapter"]);
    assert_eq!(binary.request, RequestKind::Attach);
    assert_eq!(binary.cwd.as_deref(), Some("workspace"));
}

#[test]
fn tool_binaries_per_platform() {
    assert_eq!(tool_binary_for_os("flutter", HostOs::Windows), "flutter.bat");
    assert_eq!(tool_binary_for_os("flutter", HostOs::Mac), "flutter");
    assert_eq!(tool_binary_for_os("dart", HostOs::Windows), "dart.exe");
    assert_eq!(tool_binary_for_os("anything", HostOs::Linux), "dart");
    assert_eq!(tool_name("flutter"), "flutter");
    assert_eq!(tool_name("dart"), "dart");
    assert_eq!(tool_name("other"), "dart");
}

#[test]
fn preferred_windows_tool_path_uses_dart_bat_when_present_next_to_resolved_dart() {
    let resolved = "/sdk/flutter/bin/dart.exe";
    assert_eq!(dart_bat_candidate(resolved).as_deref(), Some("/sdk/flutter/bin/dart.bat"));
    assert_eq!(
        preferred_windows_tool_path("dart.exe", Some(resolved.to_string()), true),
        "/sdk/flutter/bin/dart.bat"
    );
    assert_eq!(preferred_windows_tool_path("dart.exe", Some(resolved.to_string()), false), resolved);
    assert_eq!(
        preferred_windows_tool_path("flutter.bat", Some("/sdk/flutter/bin/flutter.bat".to_string()), true),
        "/sdk/flutter/bin/flutter.bat"
    );
    assert_eq!(preferred_windows_tool_path("dart.exe", None, true), "dart.exe");
}

#[test]
fn tool_command_path_per_platform() {
    assert_eq!(tool_command_path("dart", HostOs::Linux, None, false), "dart");
    assert_eq!(tool_command_path("flutter", HostOs::Mac, Some("/opt/flutter".to_string()), false), "/opt/flutter");
    assert_eq!(tool_command_path("flutter", HostOs::Windows, None, false), "flutter.bat");
    assert_eq!(
        tool_command_path("dart", HostOs::Windows, Some("/sdk/bin/dart.exe".to_string()), true),
        "/sdk/bin/dart.bat"
    );
}

#[test]
fn ensure_flutter_device_tool_args_cases() {
    assert_eq!(
        ensure_flutter_device_tool_args("flutter", "launch", "chrome", strings(&["--flavor", "dev"])),
        strings(&["--flavor", "dev", "-d", "chrome"])
    );
    assert_eq!(
        ensure_flutter_device_tool_args("flutter", "launch", "chrome", strings(&["-d", "macos"])),
        strings(&["-d", "macos"])
    );
    assert_eq!(
        ensure_flutter_device_tool_args("flutter", "launch", "chrome", strings(&["--device-id", "ios"])),
        strings(&["--device-id", "ios"])
    );
    assert_eq!(
        ensure_flutter_device_tool_args("flutter", "attach", "chrome", Vec::new()),
        Vec::<String>::new()
    );
    assert_eq!(
        ensure_flutter_device_tool_args("dart", "launch", "chrome", Vec::new()),
        Vec::<String>::new()
    );
}

#[test]
fn ensure_flutter_device_tool_args_is_idempotent() {
    let once = ensure_flutter_device_tool_args("flutter", "launch", "android", strings(&["--verbose"]));
    let twice = ensure_flutter_device_tool_args("flutter", "launch", "android", once.clone());
    assert_eq!(once, twice);
}

#[test]
fn debug_config_text_reads_only_fields_of_the_right_type() {
    let c = cfg(r#"{ "type": 3, "request": 7, "args": ["a", 1, null, "b"], "env": { "B": 2, "A": "x" },
                     "stopOnEntry": "yes", "customToolReplacesArgs": 1.5, "toolArgs": "-v" }"#);
    assert_eq!(c.debug_type, None);
    let request = c.request.expect("request");
    assert_eq!(request.text, None);
    assert_eq!(request.debug_repr, "Number(7)");
    assert_eq!(c.args, strings(&["a", "b"]));
    assert_eq!(c.env, vec![("A".to_string(), "x".to_string()), ("B".to_string(), String::new())]);
    assert_eq!(c.stop_on_entry, None);
    assert_eq!(c.custom_tool_replaces_args, None);
    assert!(c.tool_args.is_empty());

    let weird = cfg(r#"{ "request": "weird" }"#);
    assert_eq!(
        dap_request_kind_from_config(&weird).unwrap_err(),
        "Unexpected value for `request` key in Dart debug adapter configuration: String(\"weird\")"
    );
    assert!(cfg("[1, 2]").debug_type.is_none());
    assert!(user_debug_config_from_json("{ not json")
        .unwrap_err()
        .starts_with("Failed to parse debug config: "));
}
