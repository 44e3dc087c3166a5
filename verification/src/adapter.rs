//! The debug adapter: which tool to start, and the launch configuration that
//! is handed to it.

use vstd::prelude::*;
use crate::json::{
    bool_member, entries_view, find_member, key_values, i64_member, items_of, json_items, json_members,
    json_str, member_bool, member_i64, member_str, member_text, members_of, pairs_view,
    parse_json_text, parsed_json, render_object, render_object_text, str_member, strings_view,
    JsonDoc, JsonLeaf, JsonValue, JsonView,
};
use crate::paths::{join, join_path, parent, parent_path};
use crate::text::{concat, is_prefix, owned, str_eq, trim, trim_str};
use crate::vmservice::{info_dir_rel, plan_vm_service_info_file, InfoFilePlan};

verus! {

/// The operating system the extension runs on.
#[derive(Clone, Copy, Debug, PartialEq, Eq)]
pub enum HostOs {
    Mac,
    Linux,
    Windows,
}

/// Whether a debug session launches the program or attaches to it.
#[derive(Clone, Copy, Debug, PartialEq, Eq)]
pub enum RequestKind {
    Launch,
    Attach,
}

/// The name of the tool binary for a debug mode on an operating system.
pub open spec fn tool_binary_name(debug_mode: Seq<char>, os: HostOs) -> Seq<char> {
    if debug_mode == "flutter"@ {
        if os == HostOs::Windows {
            "flutter.bat"@
        } else {
            "flutter"@
        }
    } else if os == HostOs::Windows {
        "dart.exe"@
    } else {
        "dart"@
    }
}

/// The tool binary for a debug mode on an operating system: `flutter` for the
/// `flutter` mode and `dart` otherwise, with `.bat` / `.exe` on Windows.
pub fn tool_binary_for_os(debug_mode: &str, os: HostOs) -> (r: &'static str)
    ensures
        r@ == tool_binary_name(debug_mode@, os),
{
    if str_eq(debug_mode, "flutter") {
        match os {
            HostOs::Windows => "flutter.bat",
            _ => "flutter",
        }
    } else {
        match os {
            HostOs::Windows => "dart.exe",
            _ => "dart",
        }
    }
}

/// The tool a debug mode runs: `flutter` for `flutter`, `dart` for anything else.
pub open spec fn tool_name_of(debug_mode: Seq<char>) -> Seq<char> {
    if debug_mode == "flutter"@ {
        "flutter"@
    } else {
        "dart"@
    }
}

/// The tool a debug mode runs, as looked up on the `PATH`.
pub fn tool_name(debug_mode: &str) -> (r: &'static str)
    ensures
        r@ == tool_name_of(debug_mode@),
{
    if str_eq(debug_mode, "flutter") {
        "flutter"
    } else {
        "dart"
    }
}

/// Where a `dart.bat` next to a resolved `dart.exe` would be.
pub open spec fn dart_bat_path(resolved_path: Seq<char>) -> Option<Seq<char>> {
    match parent(resolved_path) {
        Some(dir) => Some(join(dir, "dart.bat"@)),
        None => None,
    }
}

/// Where a `dart.bat` next to a resolved `dart.exe` would be; the caller
/// checks whether it exists.
pub fn dart_bat_candidate(resolved_path: &str) -> (r: Option<String>)
    ensures
        r matches Some(p) ==> dart_bat_path(resolved_path@) == Some(p@),
        r is None ==> dart_bat_path(resolved_path@) is None,
{
    match parent_path(resolved_path) {
        Some(dir) => Some(join_path(dir.as_str(), "dart.bat")),
        None => None,
    }
}

/// The command path on Windows.
pub open spec fn preferred_windows_path(
    default_name: Seq<char>,
    resolved_path: Option<Seq<char>>,
    dart_bat_present: bool,
) -> Seq<char> {
    match resolved_path {
        None => default_name,
        Some(resolved) => if default_name == "dart.exe"@ && dart_bat_path(resolved) is Some
            && dart_bat_present {
            dart_bat_path(resolved).unwrap()
        } else {
            resolved
        },
    }
}

/// The command to run on Windows: the default name when the tool was not
/// found on the `PATH`; for `dart.exe`, the `dart.bat` next to it when that
/// exists (`dart_bat_present` says whether `dart_bat_candidate` names an
/// existing file); else the path found.
pub fn preferred_windows_tool_path(
    default_name: &str,
    resolved_path: Option<String>,
    dart_bat_present: bool,
) -> (r: String)
    ensures
        r@ == preferred_windows_path(
            default_name@,
            match resolved_path {
                Some(p) => Some(p@),
                None => None,
            },
            dart_bat_present,
        ),
{
    let resolved_path = match resolved_path {
        None => return owned(default_name),
        Some(p) => p,
    };
    if str_eq(default_name, "dart.exe") {
        if let Some(candidate) = dart_bat_candidate(resolved_path.as_str()) {
            if dart_bat_present {
                return candidate;
            }
        }
    }
    resolved_path
}

/// The command that starts a debug mode's tool.
pub open spec fn tool_command(
    debug_mode: Seq<char>,
    os: HostOs,
    resolved_path: Option<Seq<char>>,
    dart_bat_present: bool,
) -> Seq<char> {
    let default_name = tool_binary_name(debug_mode, os);
    if os == HostOs::Windows {
        preferred_windows_path(default_name, resolved_path, dart_bat_present)
    } else {
        match resolved_path {
            Some(p) => p,
            None => default_name,
        }
    }
}

/// The command that starts a debug mode's tool: the path at which the
/// worktree finds the tool (`resolved_path`), or else its default binary name;
/// on Windows as `preferred_windows_tool_path` decides.
pub fn tool_command_path(
    debug_mode: &str,
    os: HostOs,
    resolved_path: Option<String>,
    dart_bat_present: bool,
) -> (r: String)
    ensures
        r@ == tool_command(
            debug_mode@,
            os,
            match resolved_path {
                Some(p) => Some(p@),
                None => None,
            },
            dart_bat_present,
        ),
{
    let default_name = tool_binary_for_os(debug_mode, os);
    match os {
        HostOs::Windows => preferred_windows_tool_path(default_name, resolved_path, dart_bat_present),
        _ => match resolved_path {
            Some(p) => p,
            None => owned(default_name),
        },
    }
}

/// The argument names the tool's target device.
pub open spec fn is_device_arg(a: Seq<char>) -> bool {
    a == "-d"@ || a == "--device-id"@ || is_prefix("--device-id="@, a)
}

/// Some argument names the target device.
pub open spec fn names_device(args: Seq<Seq<char>>) -> bool {
    exists|i: int| 0 <= i < args.len() && is_device_arg(args[i])
}

/// The tool arguments of a launch: a Flutter `launch` whose arguments name no
/// device gets `-d <device_id>` at their end; everything else is unchanged.
pub open spec fn device_tool_args(
    debug_mode: Seq<char>,
    request: Seq<char>,
    device_id: Seq<char>,
    tool_args: Seq<Seq<char>>,
) -> Seq<Seq<char>> {
    if debug_mode != "flutter"@ || request != "launch"@ || names_device(tool_args) {
        tool_args
    } else {
        tool_args + seq!["-d"@, device_id]
    }
}

/// Whether the argument names the target device.
fn is_device_arg_exec(a: &str) -> (r: bool)
    ensures
        r == is_device_arg(a@),
{
    str_eq(a, "-d") || str_eq(a, "--device-id") || crate::text::starts_with(a, "--device-id=")
}

/// Adds `-d <device_id>` to the tool arguments of a Flutter launch that does
/// not name its device already.
pub fn ensure_flutter_device_tool_args(
    debug_mode: &str,
    request: &str,
    device_id: &str,
    tool_args: Vec<String>,
) -> (r: Vec<String>)
    ensures
        strings_view(r@) == device_tool_args(debug_mode@, request@, device_id@, strings_view(tool_args@)),
{
    if !str_eq(debug_mode, "flutter") || !str_eq(request, "launch") {
        return tool_args;
    }
    let ghost args = strings_view(tool_args@);
    let mut i: usize = 0;
    while i < tool_args.len()
        invariant
            i <= tool_args.len(),
            args == strings_view(tool_args@),
            forall|k: int| 0 <= k < i ==> !is_device_arg(args[k]),
        decreases tool_args.len() - i,
    {
        if is_device_arg_exec(tool_args[i].as_str()) {
            assert(is_device_arg(args[i as int]));
            return tool_args;
        }
        i += 1;
    }
    let mut tool_args = tool_args;
    tool_args.push(owned("-d"));
    tool_args.push(owned(device_id));
    assert(strings_view(tool_args@) =~= args + seq!["-d"@, device_id@]);
    tool_args
}

/// Law: adding the device arguments twice adds them once.
pub proof fn law_device_tool_args_idempotent(
    debug_mode: Seq<char>,
    request: Seq<char>,
    device_id: Seq<char>,
    tool_args: Seq<Seq<char>>,
)
    ensures
        device_tool_args(
            debug_mode,
            request,
            device_id,
            device_tool_args(debug_mode, request, device_id, tool_args),
        ) == device_tool_args(debug_mode, request, device_id, tool_args),
{
    let once = device_tool_args(debug_mode, request, device_id, tool_args);
    if !(debug_mode != "flutter"@ || request != "launch"@ || names_device(tool_args)) {
        assert(once[tool_args.len() as int] == "-d"@);
        assert(is_device_arg(once[tool_args.len() as int]));
    }
}

/// Law: after it, the tool arguments of a Flutter launch name a device, and
/// the arguments given come first, unchanged.
pub proof fn law_device_tool_args_name_device(
    request: Seq<char>,
    device_id: Seq<char>,
    tool_args: Seq<Seq<char>>,
)
    requires
        request == "launch"@,
    ensures
        names_device(device_tool_args("flutter"@, request, device_id, tool_args)),
        is_prefix_of_args(tool_args, device_tool_args("flutter"@, request, device_id, tool_args)),
{
    let r = device_tool_args("flutter"@, request, device_id, tool_args);
    if !names_device(tool_args) {
        assert(r[tool_args.len() as int] == "-d"@);
        assert(is_device_arg(r[tool_args.len() as int]));
    }
    assert(r.subrange(0, tool_args.len() as int) =~= tool_args);
}

/// `a` is a prefix of `b`.
pub open spec fn is_prefix_of_args(a: Seq<Seq<char>>, b: Seq<Seq<char>>) -> bool {
    a.len() <= b.len() && b.subrange(0, a.len() as int) == a
}

/// A JSON value from the user's debug configuration, as far as the adapter
/// reads it: its text when it is a string, and how it is written for error
/// messages.
#[derive(Debug)]
pub struct ConfigValue {
    pub text: Option<String>,
    pub debug_repr: String,
}

/// The fields of the user's debug configuration (a JSON object) that the
/// adapter reads. A string field is `Some` when present and a string; a
/// boolean or integer field when present and of that type; a list field holds
/// the string elements of the array (none when the field is missing or not an
/// array); `env` holds each member of the `env` object with its string value
/// (empty when not a string), in key order.
#[derive(Debug)]
pub struct UserDebugConfig {
    pub debug_type: Option<String>,
    pub request: Option<ConfigValue>,
    pub program: Option<String>,
    pub cwd: Option<String>,
    pub args: Vec<String>,
    pub env: Vec<(String, String)>,
    pub stop_on_entry: Option<bool>,
    pub flutter_mode: Option<String>,
    pub device_id: Option<String>,
    pub platform: Option<String>,
    pub tool_args: Vec<String>,
    pub vm_service_uri: Option<String>,
    pub vm_service_info_file: Option<String>,
    pub additional_project_paths: Vec<String>,
    pub custom_tool: Option<String>,
    pub custom_tool_replaces_args: Option<i64>,
    pub no_debug: Option<bool>,
    pub debug_sdk_libraries: Option<bool>,
    pub debug_external_package_libraries: Option<bool>,
    pub evaluate_getters_in_debug_views: Option<bool>,
    pub evaluate_to_string_in_debug_views: Option<bool>,
    pub send_custom_progress_events: Option<bool>,
    pub use_fvm: Option<bool>,
}

/// The string elements of the JSON values `ts`, in order.
pub open spec fn string_items(ts: Seq<Seq<char>>) -> Seq<Seq<char>>
    decreases ts.len(),
{
    if ts.len() == 0 {
        Seq::empty()
    } else {
        let rest = string_items(ts.drop_last());
        match json_str(ts.last()) {
            Some(s) => rest.push(s),
            None => rest,
        }
    }
}

/// The string elements of the array member `key` of `ms` (none when it is
/// missing or not an array).
pub open spec fn member_strings(ms: Seq<(Seq<char>, Seq<char>)>, key: Seq<char>) -> Seq<Seq<char>> {
    match member_text(ms, key) {
        Some(t) => string_items(json_items(t)),
        None => Seq::empty(),
    }
}

/// The members of the object member `env` of `ms`, each with its string
/// value, or the empty string when that is not a string (none when `env` is
/// missing or not an object).
pub open spec fn member_env(ms: Seq<(Seq<char>, Seq<char>)>) -> Seq<(Seq<char>, Seq<char>)> {
    match member_text(ms, "env"@) {
        Some(t) => json_members(t).map_values(
            |p: (Seq<char>, Seq<char>)|
                (
                    p.0,
                    match json_str(p.1) {
                        Some(v) => v,
                        None => Seq::empty(),
                    },
                ),
        ),
        None => Seq::empty(),
    }
}

/// How the JSON value `t` prints with `{:?}` (empty when it is not JSON).
pub open spec fn json_debug(t: Seq<char>) -> Seq<char> {
    match parsed_json(t) {
        Ok(d) => d.debug@,
        Err(_) => Seq::empty(),
    }
}

/// `c` holds the fields that the debug configuration `text` (a JSON object)
/// gives, as `UserDebugConfig` describes them.
pub open spec fn config_reads_text(c: UserDebugConfig, text: Seq<char>) -> bool {
    let ms = json_members(text);
    &&& opt_view(c.debug_type) == member_str(ms, "type"@)
    &&& match member_text(ms, "request"@) {
        None => c.request is None,
        Some(t) => c.request matches Some(v) && opt_view(v.text) == json_str(t) && v.debug_repr@
            == json_debug(t),
    }
    &&& opt_view(c.program) == member_str(ms, "program"@)
    &&& opt_view(c.cwd) == member_str(ms, "cwd"@)
    &&& strings_view(c.args@) == member_strings(ms, "args"@)
    &&& pairs_view(c.env@) == member_env(ms)
    &&& c.stop_on_entry == member_bool(ms, "stopOnEntry"@)
    &&& opt_view(c.flutter_mode) == member_str(ms, "flutterMode"@)
    &&& opt_view(c.device_id) == member_str(ms, "device_id"@)
    &&& opt_view(c.platform) == member_str(ms, "platform"@)
    &&& strings_view(c.tool_args@) == member_strings(ms, "toolArgs"@)
    &&& opt_view(c.vm_service_uri) == member_str(ms, "vmServiceUri"@)
    &&& opt_view(c.vm_service_info_file) == member_str(ms, "vmServiceInfoFile"@)
    &&& strings_view(c.additional_project_paths@) == member_strings(ms, "additionalProjectPaths"@)
    &&& opt_view(c.custom_tool) == member_str(ms, "customTool"@)
    &&& c.custom_tool_replaces_args == member_i64(ms, "customToolReplacesArgs"@)
    &&& c.no_debug == member_bool(ms, "noDebug"@)
    &&& c.debug_sdk_libraries == member_bool(ms, "debugSdkLibraries"@)
    &&& c.debug_external_package_libraries == member_bool(ms, "debugExternalPackageLibraries"@)
    &&& c.evaluate_getters_in_debug_views == member_bool(ms, "evaluateGettersInDebugViews"@)
    &&& c.evaluate_to_string_in_debug_views == member_bool(ms, "evaluateToStringInDebugViews"@)
    &&& c.send_custom_progress_events == member_bool(ms, "sendCustomProgressEvents"@)
    &&& c.use_fvm == member_bool(ms, "useFvm"@)
}

/// The string elements of the array member `key` of `ms`.
fn string_list_member(ms: &Vec<(String, String)>, key: &str) -> (r: Vec<String>)
    ensures
        strings_view(r@) == member_strings(pairs_view(ms@), key@),
{
    let t = match find_member(ms, key) {
        Some(t) => t,
        None => return Vec::new(),
    };
    let items = items_of(t.as_str());
    let ghost ts = strings_view(items@);
    let mut out: Vec<String> = Vec::new();
    let mut i: usize = 0;
    while i < items.len()
        invariant
            i <= items.len(),
            ts == strings_view(items@),
            strings_view(out@) == string_items(ts.subrange(0, i as int)),
        decreases items.len() - i,
    {
        let ghost before = out@;
        let parsed = parse_json_text(items[i].as_str());
        if let Ok(JsonDoc { leaf: JsonLeaf::Str(s), .. }) = parsed {
            out.push(s);
        }
        proof {
            assert(ts.subrange(0, i + 1).drop_last() =~= ts.subrange(0, i as int));
            assert(ts.subrange(0, i + 1).last() == ts[i as int]);
            assert(strings_view(out@) =~= string_items(ts.subrange(0, i + 1)));
        }
        i += 1;
    }
    assert(ts.subrange(0, items.len() as int) =~= ts);
    out
}

/// The members of the object member `env` of `ms`, with string values.
fn env_member(ms: &Vec<(String, String)>) -> (r: Vec<(String, String)>)
    ensures
        pairs_view(r@) == member_env(pairs_view(ms@)),
{
    let t = match find_member(ms, "env") {
        Some(t) => t,
        None => {
            let r: Vec<(String, String)> = Vec::new();
            assert(pairs_view(r@) =~= member_env(pairs_view(ms@)));
            return r;
        },
    };
    let members = members_of(t.as_str());
    let ghost mv = pairs_view(members@);
    let ghost target = member_env(pairs_view(ms@));
    let mut out: Vec<(String, String)> = Vec::new();
    let mut i: usize = 0;
    while i < members.len()
        invariant
            i <= members.len(),
            mv == pairs_view(members@),
            target.len() == mv.len(),
            forall|k: int| 0 <= k < mv.len() ==> #[trigger] target[k] == (mv[k].0, match json_str(mv[k].1) {
                Some(v) => v,
                None => Seq::empty(),
            }),
            pairs_view(out@) =~= target.subrange(0, i as int),
        decreases members.len() - i,
    {
        assert(mv[i as int] == (members@[i as int].0@, members@[i as int].1@));
        let value = match parse_json_text(members[i].1.as_str()) {
            Ok(JsonDoc { leaf: JsonLeaf::Str(s), .. }) => s,
            _ => String::new(),
        };
        assert(value@ == match json_str(mv[i as int].1) {
            Some(v) => v,
            None => Seq::<char>::empty(),
        });
        let key = members[i].0.clone();
        assert(key@ == mv[i as int].0);
        let ghost before = out@;
        out.push((key, value));
        proof {
            assert(pairs_view(out@) =~= pairs_view(before).push((mv[i as int].0, value@)));
            assert(target[i as int] == (mv[i as int].0, match json_str(mv[i as int].1) {
                Some(v) => v,
                None => Seq::empty(),
            }));
            assert(pairs_view(out@) =~= target.subrange(0, i + 1));
        }
        i += 1;
    }
    out
}

/// The fields of the debug configuration `text`; fails when it is not JSON
/// (see `parsed_json`).
pub fn user_debug_config_from_json(text: &str) -> (r: Result<UserDebugConfig, String>)
    ensures
        parsed_json(text@) matches Err(e) ==> (r matches Err(m) && m@
            == "Failed to parse debug config: "@ + e@),
        parsed_json(text@) is Ok ==> (r matches Ok(c) && config_reads_text(c, text@)),
{
    if let Err(e) = parse_json_text(text) {
        return Err(concat("Failed to parse debug config: ", e.as_str()));
    }
    let ms = members_of(text);
    let request = match find_member(&ms, "request") {
        None => None,
        Some(t) => {
            let (text_value, debug_repr) = match parse_json_text(t.as_str()) {
                Ok(d) => (
                    match d.leaf {
                        JsonLeaf::Str(s) => Some(s),
                        _ => None,
                    },
                    d.debug,
                ),
                Err(_) => (None, String::new()),
            };
            Some(ConfigValue { text: text_value, debug_repr })
        },
    };
    Ok(
        UserDebugConfig {
            debug_type: str_member(&ms, "type"),
            request,
            program: str_member(&ms, "program"),
            cwd: str_member(&ms, "cwd"),
            args: string_list_member(&ms, "args"),
            env: env_member(&ms),
            stop_on_entry: bool_member(&ms, "stopOnEntry"),
            flutter_mode: str_member(&ms, "flutterMode"),
            device_id: str_member(&ms, "device_id"),
            platform: str_member(&ms, "platform"),
            tool_args: string_list_member(&ms, "toolArgs"),
            vm_service_uri: str_member(&ms, "vmServiceUri"),
            vm_service_info_file: str_member(&ms, "vmServiceInfoFile"),
            additional_project_paths: string_list_member(&ms, "additionalProjectPaths"),
            custom_tool: str_member(&ms, "customTool"),
            custom_tool_replaces_args: i64_member(&ms, "customToolReplacesArgs"),
            no_debug: bool_member(&ms, "noDebug"),
            debug_sdk_libraries: bool_member(&ms, "debugSdkLibraries"),
            debug_external_package_libraries: bool_member(&ms, "debugExternalPackageLibraries"),
            evaluate_getters_in_debug_views: bool_member(&ms, "evaluateGettersInDebugViews"),
            evaluate_to_string_in_debug_views: bool_member(&ms, "evaluateToStringInDebugViews"),
            send_custom_progress_events: bool_member(&ms, "sendCustomProgressEvents"),
            use_fvm: bool_member(&ms, "useFvm"),
        },
    )
}

/// The characters of an optional string.
pub open spec fn opt_view(o: Option<String>) -> Option<Seq<char>> {
    match o {
        Some(s) => Some(s@),
        None => None,
    }
}

/// The error for a missing `request` field.
pub open spec fn missing_request_error() -> Seq<char> {
    "Missing required `request` field in Dart debug adapter configuration"@
}

/// The error for a `request` field that is neither `launch` nor `attach`.
pub open spec fn unexpected_request_error(debug_repr: Seq<char>) -> Seq<char> {
    "Unexpected value for `request` key in Dart debug adapter configuration: "@ + debug_repr
}

/// The request kind a configuration asks for: `launch` or `attach`; any other
/// value, or none, is an error.
pub fn dap_request_kind_from_config(config: &UserDebugConfig) -> (r: Result<RequestKind, String>)
    ensures
        config.request is None ==> (r matches Err(e) && e@ == missing_request_error()),
        config.request matches Some(v) ==> (opt_view(v.text) == Some("launch"@) ==> r
            == Ok::<RequestKind, String>(RequestKind::Launch)),
        config.request matches Some(v) ==> (opt_view(v.text) == Some("attach"@) ==> r
            == Ok::<RequestKind, String>(RequestKind::Attach)),
        config.request matches Some(v) ==> (r is Err <==> opt_view(v.text) != Some("launch"@)
            && opt_view(v.text) != Some("attach"@)),
        config.request matches Some(v) ==> (r matches Err(e) ==> e@ == unexpected_request_error(
            v.debug_repr@,
        )),
{
    proof {
        reveal_strlit("launch");
        reveal_strlit("attach");
        assert("launch"@[0] != "attach"@[0]);
    }
    match &config.request {
        None => Err(owned("Missing required `request` field in Dart debug adapter configuration")),
        Some(v) => {
            if let Some(t) = &v.text {
                if str_eq(t.as_str(), "launch") {
                    return Ok(RequestKind::Launch);
                }
                if str_eq(t.as_str(), "attach") {
                    return Ok(RequestKind::Attach);
                }
            }
            proof {
                reveal_strlit("launch");
                reveal_strlit("attach");
            }
            Err(
                concat(
                    "Unexpected value for `request` key in Dart debug adapter configuration: ",
                    v.debug_repr.as_str(),
                ),
            )
        },
    }
}

/// The error for a missing or blank `type`.
pub open spec fn type_required_error() -> Seq<char> {
    "type is required and cannot be empty or null"@
}

/// The error when both a VM service URI and an info file are given.
pub open spec fn both_vm_service_error() -> Seq<char> {
    "Provide only one of `vmServiceUri` or `vmServiceInfoFile` in Dart debug adapter configuration"@
}

/// The debug mode a configuration names: its `type`, when that is a string
/// that is not blank.
pub open spec fn debug_mode_of(c: UserDebugConfig) -> Option<Seq<char>> {
    match c.debug_type {
        Some(t) => if trim(t@).len() > 0 {
            Some(t@)
        } else {
            None
        },
        None => None,
    }
}

/// The value of an optional string field, or its default.
pub open spec fn or_default(o: Option<String>, d: Seq<char>) -> Seq<char> {
    match o {
        Some(s) => s@,
        None => d,
    }
}

/// The request a configuration names (`launch` when it names none).
pub open spec fn request_of(c: UserDebugConfig) -> Seq<char> {
    match c.request {
        Some(v) => or_default(v.text, "launch"@),
        None => "launch"@,
    }
}

/// `seq` with the member `(k, v)` added when `cond` holds.
pub open spec fn push_if(
    s: Seq<(Seq<char>, JsonView)>,
    cond: bool,
    k: Seq<char>,
    v: JsonView,
) -> Seq<(Seq<char>, JsonView)> {
    if cond {
        s.push((k, v))
    } else {
        s
    }
}

/// A boolean member copied from the user's configuration when present.
pub open spec fn push_bool_field(
    s: Seq<(Seq<char>, JsonView)>,
    k: Seq<char>,
    b: Option<bool>,
) -> Seq<(Seq<char>, JsonView)> {
    match b {
        Some(v) => s.push((k, JsonView::Bool(v))),
        None => s,
    }
}

/// `s` with a string member added when the value is present.
pub open spec fn push_opt(
    s: Seq<(Seq<char>, JsonView)>,
    k: Seq<char>,
    o: Option<Seq<char>>,
) -> Seq<(Seq<char>, JsonView)> {
    match o {
        Some(v) => s.push((k, JsonView::Str(v))),
        None => s,
    }
}

/// `s` with an integer member added when the value is present.
pub open spec fn push_opt_int(
    s: Seq<(Seq<char>, JsonView)>,
    k: Seq<char>,
    o: Option<i64>,
) -> Seq<(Seq<char>, JsonView)> {
    match o {
        Some(v) => s.push((k, JsonView::Int(v as int))),
        None => s,
    }
}

/// The members of the launch configuration from `additionalProjectPaths` to `cwd`.
pub open spec fn dap_members_a(c: UserDebugConfig, worktree_root: Seq<char>) -> Seq<(Seq<char>, JsonView)> {
    let additional = strings_view(c.additional_project_paths@);
    let s0 = push_if(
        Seq::empty(),
        additional.len() > 0,
        "additionalProjectPaths"@,
        JsonView::StrArray(additional),
    );
    let s1 = s0.push(("args"@, JsonView::StrArray(strings_view(c.args@))));
    let s2 = push_opt(s1, "customTool"@, opt_view(c.custom_tool));
    let s3 = push_opt_int(s2, "customToolReplacesArgs"@, c.custom_tool_replaces_args);
    s3.push(("cwd"@, JsonView::Str(or_default(c.cwd, worktree_root))))
}

/// The members of the launch configuration from `debugExternalPackageLibraries` to `platform`.
pub open spec fn dap_members_b(s: Seq<(Seq<char>, JsonView)>, c: UserDebugConfig) -> Seq<(Seq<char>, JsonView)> {
    let s5 = push_bool_field(s, "debugExternalPackageLibraries"@, c.debug_external_package_libraries);
    let s6 = push_bool_field(s5, "debugSdkLibraries"@, c.debug_sdk_libraries);
    let s7 = s6.push(("deviceId"@, JsonView::Str(or_default(c.device_id, "chrome"@))));
    let s8 = push_bool_field(s7, "evaluateGettersInDebugViews"@, c.evaluate_getters_in_debug_views);
    let s9 = push_bool_field(s8, "evaluateToStringInDebugViews"@, c.evaluate_to_string_in_debug_views);
    let s10 = s9.push(("flutterMode"@, JsonView::Str(or_default(c.flutter_mode, "debug"@))));
    let s11 = push_bool_field(s10, "noDebug"@, c.no_debug);
    s11.push(("platform"@, JsonView::Str(or_default(c.platform, "web"@))))
}

/// The members of the launch configuration from `program` to `vmServiceUri`.
pub open spec fn dap_members_c(
    s: Seq<(Seq<char>, JsonView)>,
    c: UserDebugConfig,
    debug_mode: Seq<char>,
    info_file: Option<Seq<char>>,
) -> Seq<(Seq<char>, JsonView)> {
    let request = request_of(c);
    let tool_args = device_tool_args(
        debug_mode,
        request,
        or_default(c.device_id, "chrome"@),
        strings_view(c.tool_args@),
    );
    let s13 = s.push(("program"@, JsonView::Str(or_default(c.program, "lib/main.dart"@))));
    let s14 = s13.push(("request"@, JsonView::Str(request)));
    let s15 = push_bool_field(s14, "sendCustomProgressEvents"@, c.send_custom_progress_events);
    let s16 = s15.push(("sendLogsToClient"@, JsonView::Bool(true)));
    let s17 = s16.push(("stopOnEntry"@, JsonView::Bool(c.stop_on_entry == Some(true))));
    let s18 = push_if(s17, tool_args.len() > 0, "toolArgs"@, JsonView::StrArray(tool_args));
    let s19 = s18.push(("type"@, JsonView::Str(debug_mode)));
    let s20 = push_opt(s19, "vmServiceInfoFile"@, info_file);
    push_opt(s20, "vmServiceUri"@, opt_view(c.vm_service_uri))
}

/// The values a key gets from an optional boolean: that boolean, once, when
/// there is one; none otherwise.
pub open spec fn bool_values(b: Option<bool>) -> Seq<JsonView> {
    match b {
        Some(v) => seq![JsonView::Bool(v)],
        None => Seq::empty(),
    }
}

/// `b`'s values when `cond` holds, none otherwise.
pub open spec fn bool_values_if(cond: bool, b: Option<bool>) -> Seq<JsonView> {
    if cond {
        bool_values(b)
    } else {
        Seq::empty()
    }
}

/// The members from `additionalProjectPaths` to `cwd` give no key but their
/// own.
proof fn lemma_key_values_a(c: UserDebugConfig, worktree_root: Seq<char>, k: Seq<char>)
    requires
        k != "additionalProjectPaths"@,
        k != "args"@,
        k != "customTool"@,
        k != "customToolReplacesArgs"@,
        k != "cwd"@,
    ensures
        key_values(dap_members_a(c, worktree_root), k) == Seq::<JsonView>::empty(),
{
    broadcast use crate::json::lemma_key_values_push;
    assert(key_values(Seq::empty(), k) =~= Seq::<JsonView>::empty());
}

/// What the members from `debugExternalPackageLibraries` to `platform` add to
/// the values of a key other than `deviceId`, `flutterMode` and `platform`.
proof fn lemma_key_values_b(s: Seq<(Seq<char>, JsonView)>, c: UserDebugConfig, k: Seq<char>)
    requires
        k != "deviceId"@,
        k != "flutterMode"@,
        k != "platform"@,
    ensures
        key_values(dap_members_b(s, c), k) == key_values(s, k) + bool_values_if(
            k == "debugExternalPackageLibraries"@,
            c.debug_external_package_libraries,
        ) + bool_values_if(k == "debugSdkLibraries"@, c.debug_sdk_libraries) + bool_values_if(
            k == "evaluateGettersInDebugViews"@,
            c.evaluate_getters_in_debug_views,
        ) + bool_values_if(k == "evaluateToStringInDebugViews"@, c.evaluate_to_string_in_debug_views)
            + bool_values_if(k == "noDebug"@, c.no_debug),
{
    broadcast use crate::json::lemma_key_values_push;
    let s5 = push_bool_field(s, "debugExternalPackageLibraries"@, c.debug_external_package_libraries);
    assert(key_values(s5, k) =~= key_values(s, k) + bool_values_if(
        k == "debugExternalPackageLibraries"@,
        c.debug_external_package_libraries,
    ));
    let s6 = push_bool_field(s5, "debugSdkLibraries"@, c.debug_sdk_libraries);
    assert(key_values(s6, k) =~= key_values(s5, k) + bool_values_if(k == "debugSdkLibraries"@, c.debug_sdk_libraries));
    let s7 = s6.push(("deviceId"@, JsonView::Str(or_default(c.device_id, "chrome"@))));
    let s8 = push_bool_field(s7, "evaluateGettersInDebugViews"@, c.evaluate_getters_in_debug_views);
    assert(key_values(s8, k) =~= key_values(s6, k) + bool_values_if(
        k == "evaluateGettersInDebugViews"@,
        c.evaluate_getters_in_debug_views,
    ));
    let s9 = push_bool_field(s8, "evaluateToStringInDebugViews"@, c.evaluate_to_string_in_debug_views);
    assert(key_values(s9, k) =~= key_values(s8, k) + bool_values_if(
        k == "evaluateToStringInDebugViews"@,
        c.evaluate_to_string_in_debug_views,
    ));
    let s10 = s9.push(("flutterMode"@, JsonView::Str(or_default(c.flutter_mode, "debug"@))));
    let s11 = push_bool_field(s10, "noDebug"@, c.no_debug);
    assert(key_values(s11, k) =~= key_values(s9, k) + bool_values_if(k == "noDebug"@, c.no_debug));
    assert(dap_members_b(s, c) == s11.push(("platform"@, JsonView::Str(or_default(c.platform, "web"@)))));
    assert(key_values(dap_members_b(s, c), k) =~= key_values(s, k) + bool_values_if(
        k == "debugExternalPackageLibraries"@,
        c.debug_external_package_libraries,
    ) + bool_values_if(k == "debugSdkLibraries"@, c.debug_sdk_libraries) + bool_values_if(
        k == "evaluateGettersInDebugViews"@,
        c.evaluate_getters_in_debug_views,
    ) + bool_values_if(k == "evaluateToStringInDebugViews"@, c.evaluate_to_string_in_debug_views)
        + bool_values_if(k == "noDebug"@, c.no_debug));
}

/// What the members from `program` to `vmServiceUri` add to the values of a
/// key other than theirs but `sendCustomProgressEvents`.
proof fn lemma_key_values_c(
    s: Seq<(Seq<char>, JsonView)>,
    c: UserDebugConfig,
    debug_mode: Seq<char>,
    info_file: Option<Seq<char>>,
    k: Seq<char>,
)
    requires
        k != "program"@,
        k != "request"@,
        k != "sendLogsToClient"@,
        k != "stopOnEntry"@,
        k != "toolArgs"@,
        k != "type"@,
        k != "vmServiceInfoFile"@,
        k != "vmServiceUri"@,
    ensures
        key_values(dap_members_c(s, c, debug_mode, info_file), k) == key_values(s, k)
            + bool_values_if(k == "sendCustomProgressEvents"@, c.send_custom_progress_events),
{
    broadcast use crate::json::lemma_key_values_push;
    let request = request_of(c);
    let s13 = s.push(("program"@, JsonView::Str(or_default(c.program, "lib/main.dart"@))));
    let s14 = s13.push(("request"@, JsonView::Str(request)));
    let s15 = push_bool_field(s14, "sendCustomProgressEvents"@, c.send_custom_progress_events);
    assert(key_values(s15, k) =~= key_values(s, k) + bool_values_if(
        k == "sendCustomProgressEvents"@,
        c.send_custom_progress_events,
    ));
}

/// The lengths of the keys of the launch configuration.
proof fn lemma_dap_key_lengths()
    ensures
        "additionalProjectPaths"@.len() == 22,
        "args"@.len() == 4,
        "customTool"@.len() == 10,
        "customToolReplacesArgs"@.len() == 22,
        "cwd"@.len() == 3,
        "debugExternalPackageLibraries"@.len() == 29,
        "debugSdkLibraries"@.len() == 17,
        "deviceId"@.len() == 8,
        "evaluateGettersInDebugViews"@.len() == 27,
        "evaluateToStringInDebugViews"@.len() == 28,
        "flutterMode"@.len() == 11,
        "noDebug"@.len() == 7,
        "platform"@.len() == 8,
        "program"@.len() == 7,
        "request"@.len() == 7,
        "sendCustomProgressEvents"@.len() == 24,
        "sendLogsToClient"@.len() == 16,
        "stopOnEntry"@.len() == 11,
        "toolArgs"@.len() == 8,
        "type"@.len() == 4,
        "vmServiceInfoFile"@.len() == 17,
        "vmServiceUri"@.len() == 12,
{
    reveal_strlit("additionalProjectPaths");
    reveal_strlit("args");
    reveal_strlit("customTool");
    reveal_strlit("customToolReplacesArgs");
    reveal_strlit("cwd");
    reveal_strlit("debugExternalPackageLibraries");
    reveal_strlit("debugSdkLibraries");
    reveal_strlit("deviceId");
    reveal_strlit("evaluateGettersInDebugViews");
    reveal_strlit("evaluateToStringInDebugViews");
    reveal_strlit("flutterMode");
    reveal_strlit("noDebug");
    reveal_strlit("platform");
    reveal_strlit("program");
    reveal_strlit("request");
    reveal_strlit("sendCustomProgressEvents");
    reveal_strlit("sendLogsToClient");
    reveal_strlit("stopOnEntry");
    reveal_strlit("toolArgs");
    reveal_strlit("type");
    reveal_strlit("vmServiceInfoFile");
    reveal_strlit("vmServiceUri");
}

/// The flag `noDebug` is copied under its own key.
proof fn lemma_flag_no_debug(
    c: UserDebugConfig,
    worktree_root: Seq<char>,
    debug_mode: Seq<char>,
    info_file: Option<Seq<char>>,
)
    ensures
        key_values(dap_members(c, worktree_root, debug_mode, info_file), "noDebug"@) == bool_values(
            c.no_debug,
        ),
{
    lemma_dap_key_lengths();
    reveal_strlit("noDebug");
    reveal_strlit("program");
    reveal_strlit("request");
    assert("noDebug"@[0] != "program"@[0]);
    assert("noDebug"@[0] != "request"@[0]);
    let k = "noDebug"@;
    let a = dap_members_a(c, worktree_root);
    lemma_key_values_a(c, worktree_root, k);
    let b = dap_members_b(a, c);
    lemma_key_values_b(a, c, k);
    lemma_key_values_c(b, c, debug_mode, info_file, k);
    assert(key_values(dap_members(c, worktree_root, debug_mode, info_file), k) =~= bool_values(c.no_debug));
}

/// The flag `debugSdkLibraries` is copied under its own key.
proof fn lemma_flag_debug_sdk_libraries(
    c: UserDebugConfig,
    worktree_root: Seq<char>,
    debug_mode: Seq<char>,
    info_file: Option<Seq<char>>,
)
    ensures
        key_values(dap_members(c, worktree_root, debug_mode, info_file), "debugSdkLibraries"@) == bool_values(
            c.debug_sdk_libraries,
        ),
{
    lemma_dap_key_lengths();
    reveal_strlit("debugSdkLibraries");
    reveal_strlit("vmServiceInfoFile");
    assert("debugSdkLibraries"@[0] != "vmServiceInfoFile"@[0]);
    let k = "debugSdkLibraries"@;
    let a = dap_members_a(c, worktree_root);
    lemma_key_values_a(c, worktree_root, k);
    let b = dap_members_b(a, c);
    lemma_key_values_b(a, c, k);
    lemma_key_values_c(b, c, debug_mode, info_file, k);
    assert(key_values(dap_members(c, worktree_root, debug_mode, info_file), k) =~= bool_values(c.debug_sdk_libraries));
}

/// The flag `debugExternalPackageLibraries` is copied under its own key.
proof fn lemma_flag_debug_external_package_libraries(
    c: UserDebugConfig,
    worktree_root: Seq<char>,
    debug_mode: Seq<char>,
    info_file: Option<Seq<char>>,
)
    ensures
        key_values(dap_members(c, worktree_root, debug_mode, info_file), "debugExternalPackageLibraries"@) == bool_values(
            c.debug_external_package_libraries,
        ),
{
    lemma_dap_key_lengths();
    let k = "debugExternalPackageLibraries"@;
    let a = dap_members_a(c, worktree_root);
    lemma_key_values_a(c, worktree_root, k);
    let b = dap_members_b(a, c);
    lemma_key_values_b(a, c, k);
    lemma_key_values_c(b, c, debug_mode, info_file, k);
    assert(key_values(dap_members(c, worktree_root, debug_mode, info_file), k) =~= bool_values(c.debug_external_package_libraries));
}

/// The flag `evaluateGettersInDebugViews` is copied under its own key.
proof fn lemma_flag_evaluate_getters_in_debug_views(
    c: UserDebugConfig,
    worktree_root: Seq<char>,
    debug_mode: Seq<char>,
    info_file: Option<Seq<char>>,
)
    ensures
        key_values(dap_members(c, worktree_root, debug_mode, info_file), "evaluateGettersInDebugViews"@) == bool_values(
            c.evaluate_getters_in_debug_views,
        ),
{
    lemma_dap_key_lengths();
    let k = "evaluateGettersInDebugViews"@;
    let a = dap_members_a(c, worktree_root);
    lemma_key_values_a(c, worktree_root, k);
    let b = dap_members_b(a, c);
    lemma_key_values_b(a, c, k);
    lemma_key_values_c(b, c, debug_mode, info_file, k);
    assert(key_values(dap_members(c, worktree_root, debug_mode, info_file), k) =~= bool_values(c.evaluate_getters_in_debug_views));
}

/// The flag `evaluateToStringInDebugViews` is copied under its own key.
proof fn lemma_flag_evaluate_to_string_in_debug_views(
    c: UserDebugConfig,
    worktree_root: Seq<char>,
    debug_mode: Seq<char>,
    info_file: Option<Seq<char>>,
)
    ensures
        key_values(dap_members(c, worktree_root, debug_mode, info_file), "evaluateToStringInDebugViews"@) == bool_values(
            c.evaluate_to_string_in_debug_views,
        ),
{
    lemma_dap_key_lengths();
    let k = "evaluateToStringInDebugViews"@;
    let a = dap_members_a(c, worktree_root);
    lemma_key_values_a(c, worktree_root, k);
    let b = dap_members_b(a, c);
    lemma_key_values_b(a, c, k);
    lemma_key_values_c(b, c, debug_mode, info_file, k);
    assert(key_values(dap_members(c, worktree_root, debug_mode, info_file), k) =~= bool_values(c.evaluate_to_string_in_debug_views));
}

/// The flag `sendCustomProgressEvents` is copied under its own key.
proof fn lemma_flag_send_custom_progress_events(
    c: UserDebugConfig,
    worktree_root: Seq<char>,
    debug_mode: Seq<char>,
    info_file: Option<Seq<char>>,
)
    ensures
        key_values(dap_members(c, worktree_root, debug_mode, info_file), "sendCustomProgressEvents"@) == bool_values(
            c.send_custom_progress_events,
        ),
{
    lemma_dap_key_lengths();
    let k = "sendCustomProgressEvents"@;
    let a = dap_members_a(c, worktree_root);
    lemma_key_values_a(c, worktree_root, k);
    let b = dap_members_b(a, c);
    lemma_key_values_b(a, c, k);
    lemma_key_values_c(b, c, debug_mode, info_file, k);
    assert(key_values(dap_members(c, worktree_root, debug_mode, info_file), k) =~= bool_values(c.send_custom_progress_events));
}

/// Law: each optional debugger flag of the user's configuration is copied
/// under its own key: the launch configuration has the member
/// `noDebug`, `debugSdkLibraries`, `debugExternalPackageLibraries`,
/// `evaluateGettersInDebugViews`, `evaluateToStringInDebugViews` or
/// `sendCustomProgressEvents` exactly once, with the configuration's value,
/// when the configuration gives that flag as a boolean, and not at all
/// otherwise.
pub proof fn law_debugger_flags_copied(
    c: UserDebugConfig,
    worktree_root: Seq<char>,
    debug_mode: Seq<char>,
    info_file: Option<Seq<char>>,
)
    ensures
        key_values(dap_members(c, worktree_root, debug_mode, info_file), "noDebug"@) == bool_values(
            c.no_debug,
        ),
        key_values(dap_members(c, worktree_root, debug_mode, info_file), "debugSdkLibraries"@)
            == bool_values(c.debug_sdk_libraries),
        key_values(
            dap_members(c, worktree_root, debug_mode, info_file),
            "debugExternalPackageLibraries"@,
        ) == bool_values(c.debug_external_package_libraries),
        key_values(
            dap_members(c, worktree_root, debug_mode, info_file),
            "evaluateGettersInDebugViews"@,
        ) == bool_values(c.evaluate_getters_in_debug_views),
        key_values(
            dap_members(c, worktree_root, debug_mode, info_file),
            "evaluateToStringInDebugViews"@,
        ) == bool_values(c.evaluate_to_string_in_debug_views),
        key_values(
            dap_members(c, worktree_root, debug_mode, info_file),
            "sendCustomProgressEvents"@,
        ) == bool_values(c.send_custom_progress_events),
{
    lemma_flag_no_debug(c, worktree_root, debug_mode, info_file);
    lemma_flag_debug_sdk_libraries(c, worktree_root, debug_mode, info_file);
    lemma_flag_debug_external_package_libraries(c, worktree_root, debug_mode, info_file);
    lemma_flag_evaluate_getters_in_debug_views(c, worktree_root, debug_mode, info_file);
    lemma_flag_evaluate_to_string_in_debug_views(c, worktree_root, debug_mode, info_file);
    lemma_flag_send_custom_progress_events(c, worktree_root, debug_mode, info_file);
}

/// The members of the launch configuration handed to the debug adapter, in
/// key order. `info_file` is the VM service info file the launch uses, if any.
pub open spec fn dap_members(
    c: UserDebugConfig,
    worktree_root: Seq<char>,
    debug_mode: Seq<char>,
    info_file: Option<Seq<char>>,
) -> Seq<(Seq<char>, JsonView)> {
    dap_members_c(dap_members_b(dap_members_a(c, worktree_root), c), c, debug_mode, info_file)
}

/// The info file a launch uses: the one the configuration names; none unless
/// it is a Flutter `launch`; else the one generated for it.
pub open spec fn info_file_of(
    c: UserDebugConfig,
    debug_mode: Seq<char>,
    generated: Option<Seq<char>>,
) -> Option<Seq<char>> {
    match c.vm_service_info_file {
        Some(f) => Some(f@),
        None => if debug_mode == "flutter"@ && request_of(c) == "launch"@ {
            generated
        } else {
            None
        },
    }
}

/// The launch is a Flutter `launch` that names no info file, so one is
/// generated for it (see `plan_dap_configuration`).
pub open spec fn needs_generated_info_file(c: UserDebugConfig) -> bool {
    &&& debug_mode_of(c) == Some("flutter"@)
    &&& request_of(c) == "launch"@
    &&& c.vm_service_info_file is None
}

/// The step before `build_dap_configuration` that may need the file system:
/// checks the configuration and says where its VM service info file comes
/// from. Fails as `build_dap_configuration` does.
pub fn plan_dap_configuration(user_config: &UserDebugConfig, worktree_root: &str) -> (r: Result<
    InfoFilePlan,
    String,
>)
    ensures
        debug_mode_of(*user_config) is None ==> (r matches Err(e) && e@ == type_required_error()),
        debug_mode_of(*user_config) is Some && user_config.vm_service_uri is Some
            && user_config.vm_service_info_file is Some ==> (r matches Err(e) && e@
            == both_vm_service_error()),
        debug_mode_of(*user_config) is Some && !(user_config.vm_service_uri is Some
            && user_config.vm_service_info_file is Some) ==> r is Ok,
        r matches Ok(InfoFilePlan::Use(p)) ==> opt_view(user_config.vm_service_info_file) == Some(p@),
        r matches Ok(InfoFilePlan::Generate { directory }) ==> directory@ == join(
            worktree_root@,
            info_dir_rel(),
        ) && info_file_of(*user_config, debug_mode_of(*user_config).unwrap(), None) is None
            && user_config.vm_service_info_file is None,
        r matches Ok(InfoFilePlan::NotNeeded) ==> info_file_of(
            *user_config,
            debug_mode_of(*user_config).unwrap(),
            None,
        ) is None && user_config.vm_service_info_file is None && !(debug_mode_of(*user_config).unwrap()
            == "flutter"@ && request_of(*user_config) == "launch"@),
        r matches Ok(InfoFilePlan::Generate { directory }) ==> debug_mode_of(*user_config).unwrap()
            == "flutter"@ && request_of(*user_config) == "launch"@,
        r is Ok ==> (r matches Ok(InfoFilePlan::Generate { .. }) <==> needs_generated_info_file(*user_config)),
{
    let debug_mode = match checked_debug_mode(user_config) {
        Some(m) => m,
        None => return Err(owned("type is required and cannot be empty or null")),
    };
    if user_config.vm_service_uri.is_some() && user_config.vm_service_info_file.is_some() {
        return Err(
            owned(
                "Provide only one of `vmServiceUri` or `vmServiceInfoFile` in Dart debug adapter configuration",
            ),
        );
    }
    let request = request_text(user_config);
    let explicit = match &user_config.vm_service_info_file {
        Some(f) => Some(f.as_str()),
        None => None,
    };
    Ok(plan_vm_service_info_file(worktree_root, debug_mode, request.as_str(), explicit))
}

/// The `type` of the configuration, when it is not blank.
fn checked_debug_mode(user_config: &UserDebugConfig) -> (r: Option<&str>)
    ensures
        r matches Some(m) ==> debug_mode_of(*user_config) == Some(m@),
        r is None ==> debug_mode_of(*user_config) is None,
{
    match &user_config.debug_type {
        Some(t) => {
            let trimmed = trim_str(t.as_str());
            if trimmed.as_str().unicode_len() == 0 {
                None
            } else {
                Some(t.as_str())
            }
        },
        None => None,
    }
}

/// The request of the configuration (`launch` when it names none).
fn request_text(user_config: &UserDebugConfig) -> (r: String)
    ensures
        r@ == request_of(*user_config),
{
    match &user_config.request {
        Some(v) => match &v.text {
            Some(t) => t.clone(),
            None => owned("launch"),
        },
        None => owned("launch"),
    }
}

/// An optional string field, or its default.
fn field_or(o: &Option<String>, d: &str) -> (r: String)
    ensures
        r@ == or_default(*o, d@),
{
    match o {
        Some(s) => s.clone(),
        None => owned(d),
    }
}

/// Appends a member.
fn push_member(members: &mut Vec<(String, JsonValue)>, key: &str, value: JsonValue)
    ensures
        entries_view(final(members)@) == entries_view(old(members)@).push((key@, value@)),
{
    members.push((owned(key), value));
    assert(entries_view(members@) =~= entries_view(old(members)@).push((key@, value@)));
}

/// Appends a boolean member copied from the configuration, when present.
fn push_bool_member(members: &mut Vec<(String, JsonValue)>, key: &str, value: Option<bool>)
    ensures
        entries_view(final(members)@) == push_bool_field(entries_view(old(members)@), key@, value),
{
    if let Some(b) = value {
        push_member(members, key, JsonValue::Bool(b));
    }
}

/// Appends a string member when the value is present.
fn push_opt_member(members: &mut Vec<(String, JsonValue)>, key: &str, value: Option<String>)
    ensures
        entries_view(final(members)@) == push_opt(entries_view(old(members)@), key@, opt_view(value)),
{
    if let Some(v) = value {
        push_member(members, key, JsonValue::Str(v));
    }
}

/// Appends an integer member when the value is present.
fn push_opt_int_member(members: &mut Vec<(String, JsonValue)>, key: &str, value: Option<i64>)
    ensures
        entries_view(final(members)@) == push_opt_int(entries_view(old(members)@), key@, value),
{
    if let Some(v) = value {
        push_member(members, key, JsonValue::Int(v));
    }
}

/// Appends an array member when the array is not empty.
fn push_nonempty_array_member(members: &mut Vec<(String, JsonValue)>, key: &str, value: Vec<String>)
    ensures
        entries_view(final(members)@) == push_if(
            entries_view(old(members)@),
            strings_view(value@).len() > 0,
            key@,
            JsonView::StrArray(strings_view(value@)),
        ),
{
    if value.len() > 0 {
        push_member(members, key, JsonValue::StrArray(value));
    }
}

/// A copy of an optional string.
pub fn clone_opt_string(o: &Option<String>) -> (r: Option<String>)
    ensures
        opt_view(r) == opt_view(*o),
{
    clone_opt(o)
}

/// A copy of an optional string.
fn clone_opt(o: &Option<String>) -> (r: Option<String>)
    ensures
        opt_view(r) == opt_view(*o),
{
    match o {
        Some(s) => Some(s.clone()),
        None => None,
    }
}

/// The info file a launch uses (`info_file_of`).
fn launch_info_file(
    user_config: &UserDebugConfig,
    debug_mode: &str,
    request: &str,
    generated_info_file: Option<String>,
) -> (r: Option<String>)
    requires
        request@ == request_of(*user_config),
    ensures
        opt_view(r) == info_file_of(*user_config, debug_mode@, opt_view(generated_info_file)),
{
    match &user_config.vm_service_info_file {
        Some(f) => Some(f.clone()),
        None => if str_eq(debug_mode, "flutter") && str_eq(request, "launch") {
            generated_info_file
        } else {
            None
        },
    }
}

/// A copy of a list of strings.
pub fn clone_strings(v: &Vec<String>) -> (r: Vec<String>)
    ensures
        strings_view(r@) == strings_view(v@),
{
    let mut r: Vec<String> = Vec::new();
    let mut i: usize = 0;
    while i < v.len()
        invariant
            i <= v.len(),
            r@.len() == i,
            forall|k: int| 0 <= k < i ==> r@[k]@ == v@[k]@,
        decreases v.len() - i,
    {
        r.push(v[i].clone());
        i += 1;
    }
    assert(strings_view(r@) =~= strings_view(v@));
    r
}

/// A copy of a list of string pairs.
pub fn clone_pairs(v: &Vec<(String, String)>) -> (r: Vec<(String, String)>)
    ensures
        pairs_view(r@) == pairs_view(v@),
{
    let mut r: Vec<(String, String)> = Vec::new();
    let mut i: usize = 0;
    while i < v.len()
        invariant
            i <= v.len(),
            r@.len() == i,
            forall|k: int| 0 <= k < i ==> r@[k].0@ == v@[k].0@ && r@[k].1@ == v@[k].1@,
        decreases v.len() - i,
    {
        r.push((v[i].0.clone(), v[i].1.clone()));
        i += 1;
    }
    assert(pairs_view(r@) =~= pairs_view(v@));
    r
}

/// Appends the members `dap_members_a` gives.
fn push_members_a(m: &mut Vec<(String, JsonValue)>, user_config: &UserDebugConfig, worktree_root: &str)
    requires
        old(m)@.len() == 0,
    ensures
        entries_view(final(m)@) == dap_members_a(*user_config, worktree_root@),
{
    assert(entries_view(m@) =~= Seq::empty());
    push_nonempty_array_member(m, "additionalProjectPaths", clone_strings(&user_config.additional_project_paths));
    push_member(m, "args", JsonValue::StrArray(clone_strings(&user_config.args)));
    push_opt_member(m, "customTool", clone_opt(&user_config.custom_tool));
    push_opt_int_member(m, "customToolReplacesArgs", user_config.custom_tool_replaces_args);
    push_member(m, "cwd", JsonValue::Str(field_or(&user_config.cwd, worktree_root)));
}

/// Appends the members `dap_members_b` gives.
fn push_members_b(m: &mut Vec<(String, JsonValue)>, user_config: &UserDebugConfig)
    ensures
        entries_view(final(m)@) == dap_members_b(entries_view(old(m)@), *user_config),
{
    push_bool_member(m, "debugExternalPackageLibraries", user_config.debug_external_package_libraries);
    push_bool_member(m, "debugSdkLibraries", user_config.debug_sdk_libraries);
    push_member(m, "deviceId", JsonValue::Str(field_or(&user_config.device_id, "chrome")));
    push_bool_member(m, "evaluateGettersInDebugViews", user_config.evaluate_getters_in_debug_views);
    push_bool_member(m, "evaluateToStringInDebugViews", user_config.evaluate_to_string_in_debug_views);
    push_member(m, "flutterMode", JsonValue::Str(field_or(&user_config.flutter_mode, "debug")));
    push_bool_member(m, "noDebug", user_config.no_debug);
    push_member(m, "platform", JsonValue::Str(field_or(&user_config.platform, "web")));
}

/// Appends the members `dap_members_c` gives.
fn push_members_c(
    m: &mut Vec<(String, JsonValue)>,
    user_config: &UserDebugConfig,
    debug_mode: &str,
    request: String,
    info_file: Option<String>,
)
    requires
        request@ == request_of(*user_config),
    ensures
        entries_view(final(m)@) == dap_members_c(
            entries_view(old(m)@),
            *user_config,
            debug_mode@,
            opt_view(info_file),
        ),
{
    let device_id = field_or(&user_config.device_id, "chrome");
    let tool_args = ensure_flutter_device_tool_args(
        debug_mode,
        request.as_str(),
        device_id.as_str(),
        clone_strings(&user_config.tool_args),
    );
    push_member(m, "program", JsonValue::Str(field_or(&user_config.program, "lib/main.dart")));
    push_member(m, "request", JsonValue::Str(request));
    push_bool_member(m, "sendCustomProgressEvents", user_config.send_custom_progress_events);
    push_member(m, "sendLogsToClient", JsonValue::Bool(true));
    let stop_on_entry = match user_config.stop_on_entry {
        Some(b) => b,
        None => false,
    };
    push_member(m, "stopOnEntry", JsonValue::Bool(stop_on_entry));
    push_nonempty_array_member(m, "toolArgs", tool_args);
    push_member(m, "type", JsonValue::Str(owned(debug_mode)));
    push_opt_member(m, "vmServiceInfoFile", info_file);
    push_opt_member(m, "vmServiceUri", clone_opt(&user_config.vm_service_uri));
}

/// The members of the launch configuration (`dap_members`).
fn dap_members_exec(
    user_config: &UserDebugConfig,
    worktree_root: &str,
    debug_mode: &str,
    request: String,
    info_file: Option<String>,
) -> (m: Vec<(String, JsonValue)>)
    requires
        request@ == request_of(*user_config),
    ensures
        entries_view(m@) == dap_members(*user_config, worktree_root@, debug_mode@, opt_view(info_file)),
{
    let mut m: Vec<(String, JsonValue)> = Vec::new();
    push_members_a(&mut m, user_config, worktree_root);
    push_members_b(&mut m, user_config);
    push_members_c(&mut m, user_config, debug_mode, request, info_file);
    m
}

/// `r` is what `build_dap_configuration` gives for the configuration `c` in
/// the worktree `worktree_root`, with `generated` the info file made for a
/// Flutter launch.
pub open spec fn dap_configuration_outcome(
    r: Result<(String, Vec<(String, String)>, Option<String>), String>,
    c: UserDebugConfig,
    worktree_root: Seq<char>,
    generated: Option<Seq<char>>,
) -> bool {
    &&& (debug_mode_of(c) is None ==> (r matches Err(e) && e@ == type_required_error()))
    &&& (debug_mode_of(c) is Some && c.vm_service_uri is Some
            && c.vm_service_info_file is Some ==> (r matches Err(e) && e@
            == both_vm_service_error()))
    &&& (debug_mode_of(c) is Some && !(c.vm_service_uri is Some
            && c.vm_service_info_file is Some) ==> r is Ok)
    &&& (r matches Ok((config, env, cwd)) ==> {
            &&& config@ == render_object(
                dap_members(
                    c,
                    worktree_root,
                    debug_mode_of(c).unwrap(),
                    info_file_of(
                        c,
                        debug_mode_of(c).unwrap(),
                        generated,
                    ),
                ),
            )
            &&& pairs_view(env@) == pairs_view(c.env@)
            &&& opt_view(cwd) == Some(or_default(c.cwd, worktree_root))
        })
}

/// `r` is what `build_debug_adapter_binary_from_config` gives for the
/// configuration `c` in the worktree `worktree_root`, with `generated` the
/// info file made for a Flutter launch and `tool_command` the command of the
/// debug mode's tool.
pub open spec fn adapter_binary_outcome(
    r: Result<DebugAdapterLaunch, String>,
    c: UserDebugConfig,
    worktree_root: Seq<char>,
    generated: Option<Seq<char>>,
    tool_command: Seq<char>,
) -> bool {
    &&& (debug_mode_of(c) is None ==> (r matches Err(e) && e@ == type_required_error()))
    &&& (debug_mode_of(c) is Some && c.vm_service_uri is Some
            && c.vm_service_info_file is Some ==> (r matches Err(e) && e@
            == both_vm_service_error()))
    &&& (debug_mode_of(c) is Some && !(c.vm_service_uri is Some
            && c.vm_service_info_file is Some) ==> r is Ok)
    &&& (r matches Ok(b) ==> {
            let mode = debug_mode_of(c).unwrap();
            &&& uses_fvm(c) ==> opt_view(b.command) == Some("fvm"@) && strings_view(
                b.arguments@,
            ) == seq![tool_name_of(mode), "debug_adapter"@]
            &&& !uses_fvm(c) ==> opt_view(b.command) == Some(tool_command)
                && strings_view(b.arguments@) == seq!["debug_adapter"@]
            &&& b.configuration@ == render_object(
                dap_members(
                    c,
                    worktree_root,
                    mode,
                    info_file_of(c, mode, generated),
                ),
            )
            &&& pairs_view(b.envs@) == pairs_view(c.env@)
            &&& opt_view(b.cwd) == Some(or_default(c.cwd, worktree_root))
            &&& b.request == launch_request_kind(c)
        })
}

/// Law: the debug adapter binary fails exactly when and as the launch
/// configuration does, and otherwise carries that configuration, its
/// environment and its working directory.
pub proof fn law_adapter_binary_agrees_with_configuration(
    c: UserDebugConfig,
    worktree_root: Seq<char>,
    generated: Option<Seq<char>>,
    tool_command: Seq<char>,
    binary: Result<DebugAdapterLaunch, String>,
    configuration: Result<(String, Vec<(String, String)>, Option<String>), String>,
)
    requires
        adapter_binary_outcome(binary, c, worktree_root, generated, tool_command),
        dap_configuration_outcome(configuration, c, worktree_root, generated),
    ensures
        binary is Ok <==> configuration is Ok,
        binary matches Err(x) ==> (configuration matches Err(y) && x@ == y@),
        binary matches Ok(b) ==> (configuration matches Ok((config, env, cwd)) && b.configuration@
            == config@ && pairs_view(b.envs@) == pairs_view(env@) && opt_view(b.cwd) == opt_view(cwd)),
{
}

/// The launch configuration handed to the debug adapter, with the
/// environment and working directory of the adapter process.
///
/// Fails when `type` is missing or blank, or when both `vmServiceUri` and
/// `vmServiceInfoFile` are given. Otherwise the configuration holds, in key
/// order: the configuration's `args`, `cwd` (the worktree root by default),
/// `deviceId` (`chrome`), `flutterMode` (`debug`), `platform` (`web`),
/// `program` (`lib/main.dart`), `request` (`launch`), `stopOnEntry` (`false`),
/// `type`, and `sendLogsToClient: true`; the VM service URI, the info file of
/// the launch (see `plan_dap_configuration`; `generated_info_file` is the one
/// made for a Flutter launch), the tool arguments with the device added (see
/// `ensure_flutter_device_tool_args`) when there are any, the additional
/// project paths when there are any, the custom tool settings and the six
/// optional debugger flags when given.
pub fn build_dap_configuration(
    user_config: &UserDebugConfig,
    worktree_root: &str,
    generated_info_file: Option<String>,
) -> (r: Result<(String, Vec<(String, String)>, Option<String>), String>)
    requires
        needs_generated_info_file(*user_config) ==> generated_info_file is Some,
    ensures
        dap_configuration_outcome(r, *user_config, worktree_root@, opt_view(generated_info_file)),
{
    let debug_mode = match checked_debug_mode(user_config) {
        Some(m) => m,
        None => return Err(owned("type is required and cannot be empty or null")),
    };
    if user_config.vm_service_uri.is_some() && user_config.vm_service_info_file.is_some() {
        return Err(
            owned(
                "Provide only one of `vmServiceUri` or `vmServiceInfoFile` in Dart debug adapter configuration",
            ),
        );
    }
    let request = request_text(user_config);
    let info_file = launch_info_file(user_config, debug_mode, request.as_str(), generated_info_file);
    let cwd = field_or(&user_config.cwd, worktree_root);
    let m = dap_members_exec(user_config, worktree_root, debug_mode, request, info_file);
    let config = render_object_text(&m);
    Ok((config, clone_pairs(&user_config.env), Some(cwd)))
}

/// How to start the debug adapter and what to send it.
#[derive(Debug)]
pub struct DebugAdapterLaunch {
    pub command: Option<String>,
    pub arguments: Vec<String>,
    pub envs: Vec<(String, String)>,
    pub cwd: Option<String>,
    pub configuration: String,
    pub request: RequestKind,
}

/// The configuration asks for FVM.
pub open spec fn uses_fvm(c: UserDebugConfig) -> bool {
    c.use_fvm == Some(true)
}

/// The request kind a launch is started with: `attach` for an `attach`
/// request, `launch` for anything else.
pub open spec fn launch_request_kind(c: UserDebugConfig) -> RequestKind {
    if request_of(c) == "attach"@ {
        RequestKind::Attach
    } else {
        RequestKind::Launch
    }
}

/// How to start the debug adapter for a configuration: `fvm <tool>
/// debug_adapter` when it asks for FVM, else `<tool_command> debug_adapter`,
/// where `tool_command` is the command the caller resolved for the debug mode
/// (see `tool_command_path`); with the launch configuration, environment and
/// working directory of `build_dap_configuration`, and the request kind.
/// Fails as `build_dap_configuration` does.
pub fn build_debug_adapter_binary_from_config(
    user_config: &UserDebugConfig,
    worktree_root: &str,
    generated_info_file: Option<String>,
    tool_command: &str,
) -> (r: Result<DebugAdapterLaunch, String>)
    requires
        needs_generated_info_file(*user_config) ==> generated_info_file is Some,
    ensures
        adapter_binary_outcome(r, *user_config, worktree_root@, opt_view(generated_info_file), tool_command@),
{
    let use_fvm = match user_config.use_fvm {
        Some(b) => b,
        None => false,
    };
    let debug_mode = match checked_debug_mode(user_config) {
        Some(m) => m,
        None => return Err(owned("type is required and cannot be empty or null")),
    };
    let (command, arguments) = if use_fvm {
        let mut a: Vec<String> = Vec::new();
        a.push(owned(tool_name(debug_mode)));
        a.push(owned("debug_adapter"));
        (owned("fvm"), a)
    } else {
        let mut a: Vec<String> = Vec::new();
        a.push(owned("debug_adapter"));
        (owned(tool_command), a)
    };
    assert(use_fvm ==> strings_view(arguments@) =~= seq![tool_name_of(debug_mode@), "debug_adapter"@]);
    assert(!use_fvm ==> strings_view(arguments@) =~= seq!["debug_adapter"@]);
    let request = request_text(user_config);
    let (configuration, envs, cwd) = match build_dap_configuration(
        user_config,
        worktree_root,
        generated_info_file,
    ) {
        Ok(t) => t,
        Err(e) => return Err(e),
    };
    let kind = if str_eq(request.as_str(), "attach") {
        RequestKind::Attach
    } else {
        RequestKind::Launch
    };
    Ok(DebugAdapterLaunch { command: Some(command), arguments, envs, cwd, configuration, request: kind })
}

} // verus!
