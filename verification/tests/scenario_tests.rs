use serde_json::Value;
use zed_dart::json::JsonValue;
use zed_dart::scenario::{
    build_debug_scenario_from_task, build_launch_config_value, candidate_package_roots,
    dap_config_to_scenario, dap_locator_create_scenario, debug_label_from_resolved_label,
    flutter_mode_from_tool_args, infer_debug_mode, normalize_path, package_probe_dirs,
    DebugConfigSpec, DebugRequestSpec, PackageManifest, RunTask,
};

fn strings(items: &[&str]) -> Vec<String> {
    items.iter().map(|s| s.to_string()).collect()
}

fn string_array(items: &[&str]) -> Value {
    Value::Array(items.iter().map(|s| Value::String(s.to_string())).collect())
}

fn object(pairs: &[(&str, &str)]) -> Value {
    let mut m = serde_json::Map::new();
    for (k, v) in pairs {
        m.insert(k.to_string(), Value::String(v.to_string()));
    }
    Value::Object(m)
}

fn parse(text: &str) -> Value {
    serde_json::from_str(text).expect("valid generated json")
}

fn task(label: &str, command: &str, args: &[&str], env: Vec<(String, String)>, cwd: Option<&str>) -> RunTask {
    RunTask {
        label: label.to_string(),
        command: command.to_string(),
        args: strings(args),
        env,
        cwd: cwd.map(|c| c.to_string()),
    }
}

fn no_manifests() -> Vec<PackageManifest> {
    Vec::new()
}

#[test]
fn infer_debug_mode_distinguishes_common_flutter_and_dart_entrypoints() {
    let none = no_manifests();
    assert_eq!(infer_debug_mode("lib/main.dart", None, &none), "flutter");
    assert_eq!(infer_debug_mode("packages/app/lib/main.dart", None, &none), "flutter");
    assert_eq!(infer_debug_mode("bin/main.dart", None, &none), "dart");
}

#[test]
fn infer_debug_mode_uses_nearest_package_context_when_available() {
    let package_root = "/tmp/zed-dart-test/packages/app";
    let manifests = vec![PackageManifest {
        dir: package_root.to_string(),
        pubspec: Some("name: app\ndependencies:\n  flutter:\n    sdk: flutter\n".to_string()),
        package_config: None,
    }];
    assert_eq!(infer_debug_mode("lib/main.dart", Some(package_root), &manifests), "flutter");
}

#[test]
fn infer_debug_mode_reads_manifests_of_ancestor_directories() {
    let flutter_pubspec = vec![PackageManifest {
        dir: "/work/app".to_string(),
        pubspec: Some("dependencies:\n  flutter:\n".to_string()),
        package_config: None,
    }];
    assert_eq!(infer_debug_mode("bin/tool.dart", Some("/work/app/tools"), &flutter_pubspec), "flutter");

    let flutter_config = vec![PackageManifest {
        dir: "/work/app".to_string(),
        pubspec: Some("name: app\n".to_string()),
        package_config: Some("{\"packages\":[{\"name\": \"flutter\"}]}".to_string()),
    }];
    assert_eq!(infer_debug_mode("/work/app/bin/tool.dart", None, &flutter_config), "flutter");

    let plain = vec![PackageManifest {
        dir: "/work/app".to_string(),
        pubspec: Some("name: app\n".to_string()),
        package_config: Some("{\"packages\":[{\"name\":\"path\"}]}".to_string()),
    }];
    assert_eq!(infer_debug_mode("bin/tool.dart", Some("/work/app"), &plain), "dart");
    assert_eq!(infer_debug_mode("C:\\app\\lib\\main.dart", None, &plain), "flutter");
}

#[test]
fn package_probe_dirs_walk_up_from_each_root() {
    assert_eq!(
        candidate_package_roots("bin/main.dart", Some("/work/cli")),
        strings(&["/work/cli/bin", "/work/cli"])
    );
    assert_eq!(candidate_package_roots("/abs/bin/main.dart", Some("/work")), strings(&["/abs/bin"]));
    assert_eq!(candidate_package_roots("main.dart", None), strings(&[""]));
    assert_eq!(
        package_probe_dirs("bin/main.dart", Some("/w")),
        strings(&["/w/bin", "/w", "/", "/w", "/"])
    );
}

#[test]
fn normalize_path_rewrites_backslashes() {
    assert_eq!(normalize_path("a\\b\\c.dart"), "a/b/c.dart");
    assert_eq!(normalize_path("a/b"), "a/b");
}

#[test]
fn debug_labels_from_run_labels() {
    assert_eq!(debug_label_from_resolved_label("Run App"), "Debug App");
    assert_eq!(debug_label_from_resolved_label("Runner"), "Debugner");
    assert_eq!(debug_label_from_resolved_label("Start App"), "Start App");
}

#[test]
fn flutter_mode_is_split_off_the_tool_args() {
    let (mode, rest) = flutter_mode_from_tool_args(&strings(&["--flavor", "dev"]));
    assert_eq!(mode, "debug");
    assert_eq!(rest, strings(&["--flavor", "dev"]));
    let (mode, rest) = flutter_mode_from_tool_args(&strings(&["--profile", "-v", "--release"]));
    assert_eq!(mode, "release");
    assert_eq!(rest, strings(&["-v"]));
}

#[test]
fn launch_config_value_for_dart_has_no_flutter_fields() {
    let m = build_launch_config_value(
        "dart",
        "bin/main.dart",
        None,
        Vec::new(),
        Vec::new(),
        false,
        Vec::new(),
        None,
    );
    let keys: Vec<&str> = m.iter().map(|(k, _)| k.as_str()).collect();
    assert_eq!(keys, vec!["args", "cwd", "program", "request", "sendLogsToClient", "stopOnEntry", "type"]);
    assert!(matches!(&m[1].1, JsonValue::Str(c) if c.is_empty()));
    assert!(matches!(&m[4].1, JsonValue::Bool(true)));

    let scenario = dap_config_to_scenario(
        DebugConfigSpec {
            label: "Run CLI".to_string(),
            adapter: "Dart".to_string(),
            request: DebugRequestSpec::Launch {
                program: "bin/main.dart".to_string(),
                cwd: None,
                args: Vec::new(),
                envs: Vec::new(),
            },
            stop_on_entry: None,
        },
        &no_manifests(),
    )
    .expect("scenario");
    assert_eq!(
        scenario.config,
        "{\"args\":[],\"cwd\":\"\",\"program\":\"bin/main.dart\",\"request\":\"launch\",\
         \"sendLogsToClient\":true,\"stopOnEntry\":false,\"type\":\"dart\"}"
    );
}

#[test]
fn dap_config_to_scenario_infers_flutter_launches() {
    let scenario = dap_config_to_scenario(
        DebugConfigSpec {
            label: "Run App".to_string(),
            adapter: "Dart".to_string(),
            request: DebugRequestSpec::Launch {
                program: "lib/main.dart".to_string(),
                cwd: Some("app".to_string()),
                args: strings(&["--flavor=dev"]),
                envs: vec![("FOO".to_string(), "bar".to_string())],
            },
            stop_on_entry: Some(true),
        },
        &no_manifests(),
    )
    .expect("scenario");

    let parsed = parse(&scenario.config);

    assert_eq!(scenario.adapter, "Dart");
    assert_eq!(parsed["type"], "flutter");
    assert_eq!(parsed["program"], "lib/main.dart");
    assert_eq!(parsed["cwd"], "app");
    assert_eq!(parsed["args"], string_array(&["--flavor=dev"]));
    assert_eq!(parsed["env"], object(&[("FOO", "bar")]));
    assert_eq!(parsed["stopOnEntry"], true);
}

#[test]
fn dap_config_to_scenario_attach_uses_fixed_configuration() {
    let scenario = dap_config_to_scenario(
        DebugConfigSpec {
            label: "Attach".to_string(),
            adapter: "Dart".to_string(),
            request: DebugRequestSpec::Attach,
            stop_on_entry: None,
        },
        &no_manifests(),
    )
    .expect("scenario");
    assert_eq!(scenario.label, "Attach");
    assert_eq!(
        scenario.config,
        "{\"program\":\"lib/main.dart\",\"request\":\"attach\",\"sendLogsToClient\":true,\
         \"stopOnEntry\":false,\"type\":\"dart\"}"
    );
}

#[test]
fn locator_creates_flutter_scenario_from_flutter_run_task() {
    let task = task("Run App", "flutter", &["run", "--flavor", "dev"], vec![], Some("app"));

    let scenario =
        build_debug_scenario_from_task(&task, "Debug App".to_string(), "Dart".to_string(), &no_manifests())
            .expect("scenario");
    let parsed = parse(&scenario.config);

    assert_eq!(scenario.label, "Debug App");
    assert_eq!(parsed["type"], "flutter");
    assert_eq!(parsed["program"], "lib/main.dart");
    assert_eq!(parsed["cwd"], "app");
    assert_eq!(parsed["toolArgs"], string_array(&["--flavor", "dev", "-d", "chrome"]));
}

#[test]
fn locator_creates_dart_scenario_from_dart_run_task() {
    let task = task(
        "Run CLI",
        "dart",
        &["run", "bin/main.dart", "--observe"],
        vec![("FOO".to_string(), "bar".to_string())],
        Some("cli"),
    );

    let scenario =
        build_debug_scenario_from_task(&task, "Debug CLI".to_string(), "Dart".to_string(), &no_manifests())
            .expect("scenario");
    let parsed = parse(&scenario.config);

    assert_eq!(scenario.label, "Debug CLI");
    assert_eq!(parsed["type"], "dart");
    assert_eq!(parsed["program"], "bin/main.dart");
    assert_eq!(parsed["cwd"], "cli");
    assert_eq!(parsed["toolArgs"], string_array(&["--observe"]));
    assert_eq!(parsed["env"], object(&[("FOO", "bar")]));
}

#[test]
fn locator_creates_flutter_scenario_from_fvm_flutter_run_task() {
    let task = task("Run App (FVM)", "fvm", &["flutter", "run", "-d", "macos"], vec![], Some("app"));

    let scenario =
        build_debug_scenario_from_task(&task, "Debug App".to_string(), "Dart".to_string(), &no_manifests())
            .expect("scenario");
    let parsed = parse(&scenario.config);

    assert_eq!(scenario.label, "Debug App");
    assert_eq!(parsed["type"], "flutter");
    assert_eq!(parsed["useFvm"], true);
    assert_eq!(parsed["toolArgs"], string_array(&["-d", "macos"]));
}

#[test]
fn locator_creates_dart_scenario_from_fvm_dart_run_task() {
    let task = task(
        "Run CLI (FVM)",
        "fvm",
        &["dart", "run", "bin/main.dart", "--observe"],
        vec![],
        Some("cli"),
    );

    let scenario =
        build_debug_scenario_from_task(&task, "Debug CLI".to_string(), "Dart".to_string(), &no_manifests())
            .expect("scenario");
    let parsed = parse(&scenario.config);

    assert_eq!(scenario.label, "Debug CLI");
    assert_eq!(parsed["type"], "dart");
    assert_eq!(parsed["useFvm"], true);
    assert_eq!(parsed["toolArgs"], string_array(&["--observe"]));
}

#[test]
fn locator_creates_flutter_profile_scenario() {
    let task = task("Profile App", "flutter", &["run", "--profile"], vec![], Some("app"));

    let scenario =
        build_debug_scenario_from_task(&task, "Profile App".to_string(), "Dart".to_string(), &no_manifests())
            .expect("scenario");
    let parsed = parse(&scenario.config);

    assert_eq!(scenario.label, "Profile App");
    assert_eq!(parsed["type"], "flutter");
    assert_eq!(parsed["flutterMode"], "profile");
    assert_eq!(parsed["toolArgs"], string_array(&["-d", "chrome"]));
}

#[test]
fn locator_rejects_unrelated_tasks() {
    let task = task("flutter test", "flutter", &["test"], vec![], None);

    assert!(build_debug_scenario_from_task(&task, "Test".to_string(), "Dart".to_string(), &no_manifests())
        .is_none());
}

#[test]
fn locator_only_serves_the_dart_adapter() {
    let task = task("Run App", "flutter", &["run"], vec![], Some("app"));
    let none = no_manifests();
    assert!(dap_locator_create_scenario("dart", &task, "Run App".to_string(), "Dart".to_string(), &none).is_some());
    assert!(dap_locator_create_scenario("other", &task, "Run App".to_string(), "Dart".to_string(), &none).is_none());
    assert!(dap_locator_create_scenario("dart", &task, "Run App".to_string(), "CodeLLDB".to_string(), &none).is_none());
}
