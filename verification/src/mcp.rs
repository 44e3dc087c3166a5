//! The bundled Flutter MCP server: where its sources and compiled executable
//! live, when it must be rebuilt, and how the context server is described.

use vstd::prelude::*;
use crate::adapter::HostOs;
use crate::json::{render_object, render_object_text, JsonValue, JsonView};
use crate::output::{command_failure_message, failure_message};
use crate::paths::{file_name, file_name_of, join, join_path, parent, parent_path};
use crate::text::{owned, str_eq};

verus! {

/// The name of the context server the extension provides.
pub open spec fn flutter_context_server_id() -> Seq<char> {
    "flutter-tools"@
}

/// Whether the context server is the extension's Flutter server.
pub fn is_flutter_context_server(context_server_id: &str) -> (r: bool)
    ensures
        r == (context_server_id@ == flutter_context_server_id()),
{
    str_eq(context_server_id, "flutter-tools")
}

/// The parent of the parent of a path.
pub open spec fn grandparent(p: Seq<char>) -> Option<Seq<char>> {
    match parent(p) {
        Some(q) => parent(q),
        None => None,
    }
}

/// The file name of the parent of a path.
pub open spec fn parent_name(p: Seq<char>) -> Option<Seq<char>> {
    match parent(p) {
        Some(q) => file_name(q),
        None => None,
    }
}

/// Where the extension's files are installed: for a working directory
/// `<extensions>/work/<id>`, the directory `<extensions>/installed/dart`; else
/// the extension root itself.
pub open spec fn installed_root(extension_root: Seq<char>) -> Seq<char> {
    if parent_name(extension_root) == Some("work"@) && grandparent(extension_root) is Some {
        join(join(grandparent(extension_root).unwrap(), "installed"@), "dart"@)
    } else {
        extension_root
    }
}

/// Where the compiled MCP server is cached: `<extensions>/work/dart/mcp` for
/// an extension under `<extensions>/installed` or `<extensions>/work`; else
/// `.zed-dart/mcp` under the extension root.
pub open spec fn mcp_cache_root(extension_root: Seq<char>) -> Seq<char> {
    if (parent_name(extension_root) == Some("installed"@) || parent_name(extension_root) == Some(
        "work"@,
    )) && grandparent(extension_root) is Some {
        join(join(join(grandparent(extension_root).unwrap(), "work"@), "dart"@), "mcp"@)
    } else {
        join(join(extension_root, ".zed-dart"@), "mcp"@)
    }
}

/// The parent and grandparent of a path, and the parent's file name.
fn parent_info(p: &str) -> (r: (Option<String>, Option<String>))
    ensures
        r.0 matches Some(n) ==> parent_name(p@) == Some(n@),
        r.0 is None ==> parent_name(p@) is None,
        r.1 matches Some(g) ==> grandparent(p@) == Some(g@),
        r.1 is None ==> grandparent(p@) is None,
{
    match parent_path(p) {
        Some(q) => (file_name_of(q.as_str()), parent_path(q.as_str())),
        None => (None, None),
    }
}

/// Where the extension's files are installed (see `installed_root`).
pub fn installed_extension_root(extension_root: &str) -> (r: String)
    ensures
        r@ == installed_root(extension_root@),
{
    let (name, grand) = parent_info(extension_root);
    let is_work = match &name {
        Some(n) => str_eq(n.as_str(), "work"),
        None => false,
    };
    if is_work {
        if let Some(g) = grand {
            let installed = join_path(g.as_str(), "installed");
            return join_path(installed.as_str(), "dart");
        }
    }
    owned(extension_root)
}

/// Where the compiled MCP server is cached (see `mcp_cache_root`).
pub fn cache_root(extension_root: &str) -> (r: String)
    ensures
        r@ == mcp_cache_root(extension_root@),
{
    let (name, grand) = parent_info(extension_root);
    let known = match &name {
        Some(n) => str_eq(n.as_str(), "installed") || str_eq(n.as_str(), "work"),
        None => false,
    };
    if known {
        if let Some(g) = grand {
            let work = join_path(g.as_str(), "work");
            let dart = join_path(work.as_str(), "dart");
            return join_path(dart.as_str(), "mcp");
        }
    }
    let hidden = join_path(extension_root, ".zed-dart");
    join_path(hidden.as_str(), "mcp")
}

/// The home directory the MCP server is compiled with, under the cache root.
pub fn cache_env_root(extension_root: &str) -> (r: String)
    ensures
        r@ == join(mcp_cache_root(extension_root@), "dart-env"@),
{
    let root = cache_root(extension_root);
    join_path(root.as_str(), "dart-env")
}

/// The MCP server's entrypoint.
pub open spec fn entrypoint_path(extension_root: Seq<char>) -> Seq<char> {
    join(join(installed_root(extension_root), "tool"@), "mcp_server.dart"@)
}

/// The MCP server's entrypoint, `tool/mcp_server.dart` under the installed root.
pub fn source_entrypoint(extension_root: &str) -> (r: String)
    ensures
        r@ == entrypoint_path(extension_root@),
{
    let installed = installed_extension_root(extension_root);
    let tool = join_path(installed.as_str(), "tool");
    join_path(tool.as_str(), "mcp_server.dart")
}

/// The sources whose changes make the server be rebuilt: the entrypoint and
/// the `tool/src/mcp` directory under the installed root.
pub fn source_paths(extension_root: &str) -> (r: Vec<String>)
    ensures
        crate::json::strings_view(r@) == seq![
            entrypoint_path(extension_root@),
            join(join(join(installed_root(extension_root@), "tool"@), "src"@), "mcp"@),
        ],
{
    let installed = installed_extension_root(extension_root);
    let tool = join_path(installed.as_str(), "tool");
    let entry = join_path(tool.as_str(), "mcp_server.dart");
    let src = join_path(tool.as_str(), "src");
    let mcp = join_path(src.as_str(), "mcp");
    let mut v: Vec<String> = Vec::new();
    v.push(entry);
    v.push(mcp);
    assert(crate::json::strings_view(v@) =~= seq![
        entrypoint_path(extension_root@),
        join(join(join(installed_root(extension_root@), "tool"@), "src"@), "mcp"@),
    ]);
    v
}

/// The newest of the known modification times in `times` (each in
/// nanoseconds since the Unix epoch); `None` when none is known. This is how
/// the times found under a directory combine into the directory's newest time.
pub fn newest_mtime(times: &Vec<Option<u128>>) -> (r: Option<u128>)
    ensures
        r is None <==> forall|i: int| 0 <= i < times@.len() ==> #[trigger] times@[i] is None,
        r matches Some(m) ==> exists|i: int| 0 <= i < times@.len() && #[trigger] times@[i] == Some(m),
        r matches Some(m) ==> forall|i: int|
            0 <= i < times@.len() ==> (#[trigger] times@[i] matches Some(t) ==> t <= m),
{
    let mut newest: Option<u128> = None;
    let mut i: usize = 0;
    while i < times.len()
        invariant
            i <= times.len(),
            newest is None <==> forall|k: int| 0 <= k < i ==> #[trigger] times@[k] is None,
            newest matches Some(m) ==> exists|k: int| 0 <= k < i && #[trigger] times@[k] == Some(m),
            newest matches Some(m) ==> forall|k: int|
                0 <= k < i ==> (#[trigger] times@[k] matches Some(t) ==> t <= m),
        decreases times.len() - i,
    {
        if let Some(t) = times[i] {
            newest = match newest {
                Some(m) => if t > m { Some(t) } else { Some(m) },
                None => Some(t),
            };
        }
        i += 1;
    }
    newest
}

/// The compiled server must be built: it does not exist (its modification
/// time is unknown), or some source was modified after it.
pub open spec fn must_recompile(output_mtime: Option<u128>, source_mtimes: Seq<Option<u128>>) -> bool {
    match output_mtime {
        None => true,
        Some(out) => exists|i: int|
            0 <= i < source_mtimes.len() && (#[trigger] source_mtimes[i] matches Some(m) && m > out),
    }
}

/// Whether the compiled server must be built (see `must_recompile`); the
/// times are in nanoseconds since the Unix epoch, `source_mtimes` holding the
/// newest modification time under each of `source_paths` when known.
pub fn needs_recompile(output_mtime: Option<u128>, source_mtimes: &Vec<Option<u128>>) -> (r: bool)
    ensures
        r == must_recompile(output_mtime, source_mtimes@),
{
    let out = match output_mtime {
        None => return true,
        Some(t) => t,
    };
    let mut i: usize = 0;
    while i < source_mtimes.len()
        invariant
            i <= source_mtimes.len(),
            output_mtime == Some(out),
            forall|k: int| 0 <= k < i ==> !(#[trigger] source_mtimes@[k] matches Some(m) && m > out),
        decreases source_mtimes.len() - i,
    {
        if let Some(m) = source_mtimes[i] {
            if m > out {
                return true;
            }
        }
        i += 1;
    }
    false
}

/// The Dart executable on an operating system.
pub open spec fn dart_command(os: HostOs) -> Seq<char> {
    if os == HostOs::Windows {
        "dart.exe"@
    } else {
        "dart"@
    }
}

/// The Dart executable on an operating system.
pub fn dart_command_name(os: HostOs) -> (r: &'static str)
    ensures
        r@ == dart_command(os),
{
    match os {
        HostOs::Windows => "dart.exe",
        _ => "dart",
    }
}

/// The file name of the compiled server on an operating system.
pub open spec fn compiled_server(os: HostOs) -> Seq<char> {
    if os == HostOs::Windows {
        "flutter_tools_mcp.exe"@
    } else {
        "flutter_tools_mcp"@
    }
}

/// The file name of the compiled server on an operating system.
pub fn compiled_server_name(os: HostOs) -> (r: &'static str)
    ensures
        r@ == compiled_server(os),
{
    match os {
        HostOs::Windows => "flutter_tools_mcp.exe",
        _ => "flutter_tools_mcp",
    }
}

/// The command that compiles the MCP server.
#[derive(Debug)]
pub struct CompileCommand {
    pub program: String,
    pub args: Vec<String>,
    pub env: Vec<(String, String)>,
    pub output_path: String,
}

/// Where the compiled server is written.
pub open spec fn compiled_server_path(os: HostOs, extension_root: Seq<char>) -> Seq<char> {
    join(mcp_cache_root(extension_root), compiled_server(os))
}

/// The command that compiles the MCP server: `dart --disable-analytics
/// --suppress-analytics compile exe <entrypoint> -o <output>`, with `APPDATA`,
/// `LOCALAPPDATA` and `HOME` set to the cache's `dart-env` directory.
pub fn compile_server_command(os: HostOs, extension_root: &str) -> (r: CompileCommand)
    ensures
        r.program@ == dart_command(os),
        r.output_path@ == compiled_server_path(os, extension_root@),
        crate::json::strings_view(r.args@) == seq![
            "--disable-analytics"@,
            "--suppress-analytics"@,
            "compile"@,
            "exe"@,
            entrypoint_path(extension_root@),
            "-o"@,
            compiled_server_path(os, extension_root@),
        ],
        crate::json::pairs_view(r.env@) == seq![
            ("APPDATA"@, join(mcp_cache_root(extension_root@), "dart-env"@)),
            ("LOCALAPPDATA"@, join(mcp_cache_root(extension_root@), "dart-env"@)),
            ("HOME"@, join(mcp_cache_root(extension_root@), "dart-env"@)),
        ],
{
    let root = cache_root(extension_root);
    let output_path = join_path(root.as_str(), compiled_server_name(os));
    let env_root = cache_env_root(extension_root);
    let mut args: Vec<String> = Vec::new();
    args.push(owned("--disable-analytics"));
    args.push(owned("--suppress-analytics"));
    args.push(owned("compile"));
    args.push(owned("exe"));
    args.push(source_entrypoint(extension_root));
    args.push(owned("-o"));
    args.push(output_path.clone());
    let mut env: Vec<(String, String)> = Vec::new();
    env.push((owned("APPDATA"), env_root.clone()));
    env.push((owned("LOCALAPPDATA"), env_root.clone()));
    env.push((owned("HOME"), env_root));
    let r = CompileCommand { program: owned(dart_command_name(os)), args, env, output_path };
    assert(crate::json::strings_view(r.args@) =~= seq![
        "--disable-analytics"@,
        "--suppress-analytics"@,
        "compile"@,
        "exe"@,
        entrypoint_path(extension_root@),
        "-o"@,
        compiled_server_path(os, extension_root@),
    ]);
    assert(crate::json::pairs_view(r.env@) =~= seq![
        ("APPDATA"@, join(mcp_cache_root(extension_root@), "dart-env"@)),
        ("LOCALAPPDATA"@, join(mcp_cache_root(extension_root@), "dart-env"@)),
        ("HOME"@, join(mcp_cache_root(extension_root@), "dart-env"@)),
    ]);
    r
}

/// The message when compiling the server fails.
pub fn compile_failure_message(stderr: &str, stdout: &str) -> (r: String)
    ensures
        r@ == failure_message("Failed to compile bundled Flutter MCP server"@, stderr@, stdout@),
{
    command_failure_message("Failed to compile bundled Flutter MCP server", stderr, stdout)
}

/// The message when the compiler left no executable behind.
pub fn missing_server_message(output_path: &str) -> (r: String)
    ensures
        r@ == "Compiled Flutter MCP server was not created at `"@ + output_path@ + "`"@,
{
    let mut r = owned("Compiled Flutter MCP server was not created at `");
    r.append(output_path);
    r.append("`");
    r
}

/// The compiled server once the compiler ran, given how it exited (`status`,
/// `None` when a signal ended it), what it printed, and whether the server
/// file exists at `output_path` afterwards: the compiler's failure (see
/// `compile_failure_message`), else the missing file, else the file.
pub fn compiled_server_outcome(
    status: Option<i32>,
    stdout: &str,
    stderr: &str,
    output_path: String,
    output_exists: bool,
) -> (r: Result<String, String>)
    ensures
        status != Some(0i32) ==> (r matches Err(m) && m@ == failure_message(
            "Failed to compile bundled Flutter MCP server"@,
            stderr@,
            stdout@,
        )),
        status == Some(0i32) && !output_exists ==> (r matches Err(m) && m@
            == "Compiled Flutter MCP server was not created at `"@ + output_path@ + "`"@),
        status == Some(0i32) && output_exists ==> (r matches Ok(p) && p@ == output_path@),
{
    if status != Some(0i32) {
        return Err(compile_failure_message(stderr, stdout));
    }
    if !output_exists {
        return Err(missing_server_message(output_path.as_str()));
    }
    Ok(output_path)
}

/// Refuses a context server other than the extension's.
pub fn check_context_server(context_server_id: &str) -> (r: Result<(), String>)
    ensures
        r is Ok <==> context_server_id@ == flutter_context_server_id(),
        r matches Err(e) ==> e@ == "Unknown context server `"@ + context_server_id@ + "`"@,
{
    if !is_flutter_context_server(context_server_id) {
        let mut msg = owned("Unknown context server `");
        msg.append(context_server_id);
        msg.append("`");
        return Err(msg);
    }
    Ok(())
}

/// How the context server is described to the user.
#[derive(Debug)]
pub struct ServerConfiguration {
    pub installation_instructions: String,
    pub settings_schema: String,
    pub default_settings: String,
}

/// The installation instructions of the Flutter context server.
pub open spec fn server_instructions() -> Seq<char> {
    "This server is bundled with the Dart extension.\n\nPrerequisites:\n- `dart` must be available on your PATH the first time Zed compiles the bundled MCP server into a cached executable.\n- `flutter` should be available on your PATH for the Flutter device and hot-reload tools.\n\nImplementation details:\n- The bundled server uses only `dart:` libraries and relative imports so compilation does not require `pub get` or pub.dev access.\n- The compiled executable is cached under your system temp directory and rebuilt when the bundled MCP sources change.\n\nNotes:\n- `flutter_hot_reload` and `flutter_hot_restart` accept an explicit `workspace_root` when you want them to auto-discover the latest `.zed/dart/vmservice-info` file.\n- `flutter_hot_reload` and `flutter_hot_restart` currently use the same shell-backed `flutter attach` workaround as the slash commands."@
}

/// The settings schema of the Flutter context server: an object with no
/// properties.
pub open spec fn server_settings_schema() -> Seq<char> {
    render_object(
        seq![
            ("additionalProperties"@, JsonView::Bool(false)),
            ("properties"@, JsonView::StrObject(Seq::empty())),
            ("type"@, JsonView::Str("object"@)),
        ],
    )
}

/// The description of the Flutter context server: its installation
/// instructions, a settings schema without properties, and empty default
/// settings; none for other context servers.
pub fn context_server_configuration(context_server_id: &str) -> (r: Option<ServerConfiguration>)
    ensures
        r is Some <==> context_server_id@ == flutter_context_server_id(),
        r matches Some(c) ==> c.installation_instructions@ == server_instructions()
            && c.settings_schema@ == server_settings_schema() && c.default_settings@ == render_object(
            Seq::empty(),
        ),
{
    if !is_flutter_context_server(context_server_id) {
        return None;
    }
    let mut schema: Vec<(String, JsonValue)> = Vec::new();
    schema.push((owned("additionalProperties"), JsonValue::Bool(false)));
    schema.push((owned("properties"), JsonValue::StrObject(Vec::new())));
    schema.push((owned("type"), JsonValue::Str(owned("object"))));
    assert(crate::json::entries_view(schema@) =~= seq![
        ("additionalProperties"@, JsonView::Bool(false)),
        ("properties"@, JsonView::StrObject(Seq::empty())),
        ("type"@, JsonView::Str("object"@)),
    ]) by {
        assert(crate::json::pairs_view(Seq::<(String, String)>::empty()) =~= Seq::empty());
    }
    let empty: Vec<(String, JsonValue)> = Vec::new();
    assert(crate::json::entries_view(empty@) =~= Seq::empty());
    Some(
        ServerConfiguration {
            installation_instructions: owned("This server is bundled with the Dart extension.\n\nPrerequisites:\n- `dart` must be available on your PATH the first time Zed compiles the bundled MCP server into a cached executable.\n- `flutter` should be available on your PATH for the Flutter device and hot-reload tools.\n\nImplementation details:\n- The bundled server uses only `dart:` libraries and relative imports so compilation does not require `pub get` or pub.dev access.\n- The compiled executable is cached under your system temp directory and rebuilt when the bundled MCP sources change.\n\nNotes:\n- `flutter_hot_reload` and `flutter_hot_restart` accept an explicit `workspace_root` when you want them to auto-discover the latest `.zed/dart/vmservice-info` file.\n- `flutter_hot_reload` and `flutter_hot_restart` currently use the same shell-backed `flutter attach` workaround as the slash commands."),
            settings_schema: render_object_text(&schema),
            default_settings: render_object_text(&empty),
        },
    )
}

} // verus!
