use zed_dart::adapter::HostOs;
use zed_dart::mcp::{
    cache_env_root, cache_root, check_context_server, compile_failure_message,
    compile_server_command, compiled_server_name, compiled_server_outcome, context_server_configuration,
    dart_command_name, installed_extension_root, is_flutter_context_server,
    missing_server_message, needs_recompile, newest_mtime, source_entrypoint, source_paths,
};

#[test]
fn context_server_identity() {
    assert!(is_flutter_context_server("flutter-tools"));
    assert!(!is_flutter_context_server("flutter"));
    assert!(check_context_server("flutter-tools").is_ok());
    assert_eq!(check_context_server("other").unwrap_err(), "Unknown context server `other`");
}

#[test]
fn extension_roots_for_installed_and_dev_layouts() {
    assert_eq!(installed_extension_root("/ext/work/dart"), "/ext/installed/dart");
    assert_eq!(installed_extension_root("/ext/installed/dart"), "/ext/installed/dart");
    assert_eq!(installed_extension_root("/src/zed-dart"), "/src/zed-dart");

    assert_eq!(cache_root("/ext/work/dart"), "/ext/work/dart/mcp");
    assert_eq!(cache_root("/ext/installed/dart"), "/ext/work/dart/mcp");
    assert_eq!(cache_root("/src/zed-dart"), "/src/zed-dart/.zed-dart/mcp");
    assert_eq!(cache_env_root("/ext/installed/dart"), "/ext/work/dart/mcp/dart-env");
    assert_eq!(cache_env_root("/src/zed-dart"), "/src/zed-dart/.zed-dart/mcp/dart-env");
}

#[test]
fn source_locations() {
    assert_eq!(source_entrypoint("/ext/work/dart"), "/ext/installed/dart/tool/mcp_server.dart");
    assert_eq!(
        source_paths("/src/zed-dart"),
        vec![
            "/src/zed-dart/tool/mcp_server.dart".to_string(),
            "/src/zed-dart/tool/src/mcp".to_string()
        ]
    );
}

#[test]
fn recompile_decisions() {
    assert!(needs_recompile(None, &vec![Some(1)]));
    assert!(needs_recompile(Some(5), &vec![None, Some(6)]));
    assert!(!needs_recompile(Some(5), &vec![Some(5), None, Some(3)]));
    assert!(!needs_recompile(Some(5), &Vec::new()));
}

#[test]
fn newest_modification_time() {
    assert_eq!(newest_mtime(&vec![Some(3), None, Some(9), Some(4)]), Some(9));
    assert_eq!(newest_mtime(&vec![None, None]), None);
    assert_eq!(newest_mtime(&Vec::new()), None);
}

#[test]
fn compile_command_per_platform() {
    assert_eq!(dart_command_name(HostOs::Windows), "dart.exe");
    assert_eq!(dart_command_name(HostOs::Linux), "dart");
    assert_eq!(compiled_server_name(HostOs::Windows), "flutter_tools_mcp.exe");
    assert_eq!(compiled_server_name(HostOs::Mac), "flutter_tools_mcp");

    let c = compile_server_command(HostOs::Linux, "/ext/installed/dart");
    assert_eq!(c.program, "dart");
    assert_eq!(c.output_path, "/ext/work/dart/mcp/flutter_tools_mcp");
    assert_eq!(
        c.args,
        vec![
            "--disable-analytics",
            "--suppress-analytics",
            "compile",
            "exe",
            "/ext/installed/dart/tool/mcp_server.dart",
            "-o",
            "/ext/work/dart/mcp/flutter_tools_mcp"
        ]
    );
    let env_root = "/ext/work/dart/mcp/dart-env".to_string();
    assert_eq!(
        c.env,
        vec![
            ("APPDATA".to_string(), env_root.clone()),
            ("LOCALAPPDATA".to_string(), env_root.clone()),
            ("HOME".to_string(), env_root)
        ]
    );
}

#[test]
fn compile_failure_messages() {
    assert_eq!(compile_failure_message("", "  "), "Failed to compile bundled Flutter MCP server");
    assert_eq!(
        compile_failure_message(" bad source ", "ignored"),
        "Failed to compile bundled Flutter MCP server: bad source"
    );
    assert_eq!(
        missing_server_message("/c/flutter_tools_mcp"),
        "Compiled Flutter MCP server was not created at `/c/flutter_tools_mcp`"
    );
}

#[test]
fn context_server_description() {
    assert!(context_server_configuration("other").is_none());
    let c = context_server_configuration("flutter-tools").expect("configuration");
    assert!(c.installation_instructions.starts_with("This server is bundled with the Dart extension.\n\nPrerequisites:\n"));
    assert_eq!(c.settings_schema, "{\"additionalProperties\":false,\"properties\":{},\"type\":\"object\"}");
    assert_eq!(c.default_settings, "{}");
}

#[test]
fn compiled_server_outcomes() {
    assert_eq!(compiled_server_outcome(Some(0), "", "", "/c/s".to_string(), true).expect("server"), "/c/s");
    assert_eq!(
        compiled_server_outcome(Some(0), "", "", "/c/s".to_string(), false).unwrap_err(),
        "Compiled Flutter MCP server was not created at `/c/s`"
    );
    assert_eq!(
        compiled_server_outcome(Some(1), " out ", "", "/c/s".to_string(), true).unwrap_err(),
        "Failed to compile bundled Flutter MCP server: out"
    );
}
