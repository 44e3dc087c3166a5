//! Debug scenarios: which debug mode a program is run in, the launch
//! configuration of a scenario, and the scenarios made from run tasks and
//! from Zed's debug configurations.

use vstd::prelude::*;
use crate::adapter::{
    clone_pairs, clone_strings, device_tool_args, ensure_flutter_device_tool_args, opt_view,
    push_if,
};
use crate::json::{
    entries_view, key_values, pairs_view, render_object, render_object_text, strings_view, JsonValue,
    JsonView,
};
use crate::paths::{ancestors, ancestors_of, is_absolute, is_absolute_path, join, join_path, parent, parent_path};
use crate::text::{
    concat, contains, contains_seq, is_prefix, owned, replace_char, replace_char_str, str_eq,
    strip_prefix,
};

verus! {

/// A path with `\` separators written as `/`.
pub open spec fn normalized_path(p: Seq<char>) -> Seq<char> {
    replace_char(p, '\\', "/"@)
}

/// Replacing `from` by text without it leaves no `from`; replacing in text
/// without `from` changes nothing.
proof fn lemma_replace_char_removes(s: Seq<char>, from: char, to: Seq<char>)
    requires
        !to.contains(from),
    ensures
        !replace_char(s, from, to).contains(from),
        !s.contains(from) ==> replace_char(s, from, to) == s,
    decreases s.len(),
{
    if s.len() > 0 {
        lemma_replace_char_removes(s.drop_first(), from, to);
        let head = if s[0] == from {
            to
        } else {
            seq![s[0]]
        };
        let r = replace_char(s, from, to);
        let rest = replace_char(s.drop_first(), from, to);
        assert(r =~= head + rest);
        assert forall|i: int| 0 <= i < r.len() implies r[i] != from by {
            if i < head.len() {
                assert(r[i] == head[i]);
            } else {
                assert(r[i] == rest[i - head.len()]);
            }
        }
        if !s.contains(from) {
            assert(s[0] != from);
            assert(!s.drop_first().contains(from)) by {
                assert forall|i: int| 0 <= i < s.drop_first().len() implies s.drop_first()[i] != from by {
                    assert(s.drop_first()[i] == s[i + 1]);
                }
            }
            assert(seq![s[0]] + s.drop_first() =~= s);
        }
    }
}

/// Law: a normalized path holds no `\`, and normalizing it again changes
/// nothing.
pub proof fn law_normalize_path_idempotent(p: Seq<char>)
    ensures
        !normalized_path(p).contains('\\'),
        normalized_path(normalized_path(p)) == normalized_path(p),
{
    reveal_strlit("/");
    assert(!"/"@.contains('\\')) by {
        assert("/"@[0] == '/');
    }
    lemma_replace_char_removes(p, '\\', "/"@);
    lemma_replace_char_removes(normalized_path(p), '\\', "/"@);
}

/// Writes the `\` separators of a path as `/`.
pub fn normalize_path(path: &str) -> (r: String)
    ensures
        r@ == normalized_path(path@),
{
    replace_char_str(path, '\\', "/")
}

/// The directories in which the package of a program may start: the
/// program's directory (resolved against `cwd` for a relative program) and
/// `cwd` itself.
pub open spec fn candidate_roots(program: Seq<char>, cwd: Option<Seq<char>>) -> Seq<Seq<char>> {
    match cwd {
        Some(c) => if is_absolute(program) {
            match parent(program) {
                Some(p) => seq![p],
                None => Seq::empty(),
            }
        } else {
            let dir = match parent(join(c, program)) {
                Some(p) => p,
                None => c,
            };
            seq![dir, c]
        },
        None => match parent(program) {
            Some(p) => seq![p],
            None => Seq::empty(),
        },
    }
}

/// The directories in which the package of a program may start.
pub fn candidate_package_roots(program: &str, cwd: Option<&str>) -> (r: Vec<String>)
    ensures
        strings_view(r@) == candidate_roots(
            program@,
            match cwd {
                Some(c) => Some(c@),
                None => None,
            },
        ),
{
    let mut roots: Vec<String> = Vec::new();
    match cwd {
        Some(c) => {
            if is_absolute_path(program) {
                if let Some(p) = parent_path(program) {
                    roots.push(p);
                }
            } else {
                let joined = join_path(c, program);
                let dir = match parent_path(joined.as_str()) {
                    Some(p) => p,
                    None => owned(c),
                };
                roots.push(dir);
                roots.push(owned(c));
            }
        },
        None => {
            if let Some(p) = parent_path(program) {
                roots.push(p);
            }
        },
    }
    assert(strings_view(roots@) =~= candidate_roots(
        program@,
        match cwd {
            Some(c) => Some(c@),
            None => None,
        },
    ));
    roots
}

/// The ancestors of each of `roots`, one root after the other.
pub open spec fn all_ancestors(roots: Seq<Seq<char>>) -> Seq<Seq<char>>
    decreases roots.len(),
{
    if roots.len() == 0 {
        Seq::empty()
    } else {
        all_ancestors(roots.drop_last()) + ancestors(roots.last())
    }
}

/// The directories whose manifests tell whether a program belongs to a
/// Flutter package: the candidate roots and all their ancestors.
pub open spec fn probe_dirs(program: Seq<char>, cwd: Option<Seq<char>>) -> Seq<Seq<char>> {
    all_ancestors(candidate_roots(program, cwd))
}

/// The directories whose `pubspec.yaml` and `.dart_tool/package_config.json`
/// the caller reads for `infer_debug_mode`.
pub fn package_probe_dirs(program: &str, cwd: Option<&str>) -> (r: Vec<String>)
    ensures
        strings_view(r@) == probe_dirs(
            program@,
            match cwd {
                Some(c) => Some(c@),
                None => None,
            },
        ),
{
    let roots = candidate_package_roots(program, cwd);
    let ghost rv = strings_view(roots@);
    let mut out: Vec<String> = Vec::new();
    let mut i: usize = 0;
    while i < roots.len()
        invariant
            i <= roots.len(),
            rv == strings_view(roots@),
            strings_view(out@) == all_ancestors(rv.subrange(0, i as int)),
        decreases roots.len() - i,
    {
        let anc = ancestors_of(roots[i].as_str());
        append_strings(&mut out, &anc);
        proof {
            assert(strings_view(anc@) =~= ancestors(rv[i as int]));
            assert(rv.subrange(0, i + 1).drop_last() =~= rv.subrange(0, i as int));
        }
        i += 1;
    }
    assert(rv.subrange(0, roots.len() as int) =~= rv);
    out
}

/// Appends copies of the strings of `src` to `out`.
pub fn append_strings(out: &mut Vec<String>, src: &Vec<String>)
    ensures
        strings_view(final(out)@) == strings_view(old(out)@) + strings_view(src@),
{
    let ghost start = out@;
    let mut k: usize = 0;
    while k < src.len()
        invariant
            k <= src.len(),
            out@.len() == start.len() + k,
            forall|t: int| 0 <= t < start.len() ==> out@[t] == start[t],
            forall|t: int| 0 <= t < k ==> out@[start.len() + t]@ == src@[t]@,
        decreases src.len() - k,
    {
        out.push(src[k].clone());
        k += 1;
    }
    assert(strings_view(out@) =~= strings_view(start) + strings_view(src@));
}

/// What was read for one directory: its `pubspec.yaml` and its
/// `.dart_tool/package_config.json`, each when it could be read.
#[derive(Debug)]
pub struct PackageManifest {
    pub dir: String,
    pub pubspec: Option<String>,
    pub package_config: Option<String>,
}

/// A `pubspec.yaml` that depends on Flutter.
pub open spec fn pubspec_uses_flutter(c: Seq<char>) -> bool {
    contains_seq(c, "sdk: flutter"@) || contains_seq(c, "flutter:"@) || contains_seq(
        c,
        "package:flutter"@,
    )
}

/// A `package_config.json` that lists Flutter.
pub open spec fn package_config_uses_flutter(c: Seq<char>) -> bool {
    contains_seq(c, "\"name\":\"flutter\""@) || contains_seq(c, "\"name\": \"flutter\""@)
        || contains_seq(c, "package:flutter"@)
}

/// The manifests of a directory show a Flutter package.
pub open spec fn manifest_uses_flutter(m: PackageManifest) -> bool {
    (m.pubspec matches Some(p) && pubspec_uses_flutter(p@)) || (m.package_config matches Some(p)
        && package_config_uses_flutter(p@))
}

/// Some manifest read for `dir` shows a Flutter package.
pub open spec fn dir_uses_flutter(dir: Seq<char>, ms: Seq<PackageManifest>) -> bool {
    exists|i: int| 0 <= i < ms.len() && ms[i].dir@ == dir && manifest_uses_flutter(ms[i])
}

/// A program path that looks like a Flutter entrypoint: `lib/main.dart`, or a
/// file under a `lib/` directory.
pub open spec fn entrypoint_is_flutter(program: Seq<char>) -> bool {
    let p = normalized_path(program);
    p == "lib/main.dart"@ || is_prefix("lib/"@, p) || contains_seq(p, "/lib/"@)
}

/// The debug mode of a program: `flutter` when the package it belongs to (a
/// probed directory) uses Flutter, or when it looks like a Flutter entrypoint;
/// `dart` otherwise.
pub open spec fn debug_mode_for(
    program: Seq<char>,
    cwd: Option<Seq<char>>,
    ms: Seq<PackageManifest>,
) -> Seq<char> {
    let dirs = probe_dirs(program, cwd);
    if (exists|i: int| 0 <= i < dirs.len() && dir_uses_flutter(#[trigger] dirs[i], ms))
        || entrypoint_is_flutter(program) {
        "flutter"@
    } else {
        "dart"@
    }
}

/// Whether the manifests show a Flutter package.
fn manifest_uses_flutter_exec(m: &PackageManifest) -> (r: bool)
    ensures
        r == manifest_uses_flutter(*m),
{
    let pub_flutter = match &m.pubspec {
        Some(p) => contains(p.as_str(), "sdk: flutter") || contains(p.as_str(), "flutter:")
            || contains(p.as_str(), "package:flutter"),
        None => false,
    };
    let config_flutter = match &m.package_config {
        Some(p) => contains(p.as_str(), "\"name\":\"flutter\"") || contains(
            p.as_str(),
            "\"name\": \"flutter\"",
        ) || contains(p.as_str(), "package:flutter"),
        None => false,
    };
    pub_flutter || config_flutter
}

/// Whether some manifest read for `dir` shows a Flutter package.
fn dir_uses_flutter_exec(dir: &str, manifests: &Vec<PackageManifest>) -> (r: bool)
    ensures
        r == dir_uses_flutter(dir@, manifests@),
{
    let mut i: usize = 0;
    while i < manifests.len()
        invariant
            i <= manifests.len(),
            forall|k: int|
                0 <= k < i ==> !(manifests@[k].dir@ == dir@ && manifest_uses_flutter(manifests@[k])),
        decreases manifests.len() - i,
    {
        if str_eq(manifests[i].dir.as_str(), dir) && manifest_uses_flutter_exec(&manifests[i]) {
            return true;
        }
        i += 1;
    }
    false
}

/// Whether the program looks like a Flutter entrypoint.
fn entrypoint_is_flutter_exec(program: &str) -> (r: bool)
    ensures
        r == entrypoint_is_flutter(program@),
{
    let p = normalize_path(program);
    str_eq(p.as_str(), "lib/main.dart") || crate::text::starts_with(p.as_str(), "lib/") || contains(
        p.as_str(),
        "/lib/",
    )
}

/// The debug mode to run a program in: `flutter` when a `pubspec.yaml` or
/// `package_config.json` read for one of `package_probe_dirs(program, cwd)`
/// (given in `manifests`) shows a Flutter package, or when the program looks
/// like a Flutter entrypoint; `dart` otherwise.
pub fn infer_debug_mode(program: &str, cwd: Option<&str>, manifests: &Vec<PackageManifest>) -> (r:
    &'static str)
    ensures
        r@ == debug_mode_for(
            program@,
            match cwd {
                Some(c) => Some(c@),
                None => None,
            },
            manifests@,
        ),
{
    let dirs = package_probe_dirs(program, cwd);
    let ghost dv = strings_view(dirs@);
    let ghost cv = match cwd {
        Some(c) => Some(c@),
        None => None,
    };
    let ghost pd = probe_dirs(program@, cv);
    assert(pd == dv);
    let mut i: usize = 0;
    while i < dirs.len()
        invariant
            i <= dirs.len(),
            dv == strings_view(dirs@),
            pd == dv,
            pd == probe_dirs(program@, cv),
            cv == match cwd {
                Some(c) => Some(c@),
                None => None,
            },
            forall|k: int| 0 <= k < i ==> !dir_uses_flutter(#[trigger] dv[k], manifests@),
        decreases dirs.len() - i,
    {
        if dir_uses_flutter_exec(dirs[i].as_str(), manifests) {
            assert(dir_uses_flutter(dv[i as int], manifests@));
            assert(dir_uses_flutter(pd[i as int], manifests@));
            return "flutter";
        }
        i += 1;
    }
    assert(forall|k: int| 0 <= k < pd.len() ==> !dir_uses_flutter(#[trigger] pd[k], manifests@));
    if entrypoint_is_flutter_exec(program) {
        "flutter"
    } else {
        "dart"
    }
}

/// The label of a debug scenario made from a run task's label: `Run …`
/// becomes `Debug …`.
pub open spec fn debug_label(l: Seq<char>) -> Seq<char> {
    if is_prefix("Run "@, l) {
        "Debug "@ + l.subrange(4, l.len() as int)
    } else if is_prefix("Run"@, l) {
        "Debug"@ + l.subrange(3, l.len() as int)
    } else {
        l
    }
}

/// The label of a debug scenario made from a run task's label.
pub fn debug_label_from_resolved_label(resolved_label: &str) -> (r: String)
    ensures
        r@ == debug_label(resolved_label@),
{
    proof {
        reveal_strlit("Run ");
        reveal_strlit("Run");
    }
    if let Some(rest) = strip_prefix(resolved_label, "Run ") {
        return concat("Debug ", rest.as_str());
    }
    if let Some(rest) = strip_prefix(resolved_label, "Run") {
        return concat("Debug", rest.as_str());
    }
    owned(resolved_label)
}

/// The argument selects a build mode.
pub open spec fn is_mode_flag(a: Seq<char>) -> bool {
    a == "--profile"@ || a == "--release"@
}

/// The Flutter build mode the tool arguments select: the last of
/// `--profile` / `--release`, or `debug`.
pub open spec fn mode_of_args(args: Seq<Seq<char>>) -> Seq<char>
    decreases args.len(),
{
    if args.len() == 0 {
        "debug"@
    } else if args.last() == "--profile"@ {
        "profile"@
    } else if args.last() == "--release"@ {
        "release"@
    } else {
        mode_of_args(args.drop_last())
    }
}

/// The tool arguments without the build-mode flags.
pub open spec fn args_without_mode(args: Seq<Seq<char>>) -> Seq<Seq<char>>
    decreases args.len(),
{
    if args.len() == 0 {
        Seq::empty()
    } else if is_mode_flag(args.last()) {
        args_without_mode(args.drop_last())
    } else {
        args_without_mode(args.drop_last()).push(args.last())
    }
}

/// The arguments left once the build mode is split off hold no build-mode
/// flag, so splitting them again finds the `debug` mode and keeps them all.
pub proof fn law_mode_split_idempotent(args: Seq<Seq<char>>)
    ensures
        forall|i: int|
            0 <= i < args_without_mode(args).len() ==> !is_mode_flag(
                #[trigger] args_without_mode(args)[i],
            ),
        mode_of_args(args_without_mode(args)) == "debug"@,
        args_without_mode(args_without_mode(args)) == args_without_mode(args),
    decreases args.len(),
{
    if args.len() > 0 {
        law_mode_split_idempotent(args.drop_last());
        let r = args_without_mode(args);
        if !is_mode_flag(args.last()) {
            assert(r.drop_last() =~= args_without_mode(args.drop_last()));
            assert(r.last() == args.last());
        }
    }
}

/// Splits the Flutter build mode off the tool arguments: the mode the last
/// `--profile` or `--release` selects (`debug` when there is none), and the
/// other arguments in order.
pub fn flutter_mode_from_tool_args(tool_args: &Vec<String>) -> (r: (&'static str, Vec<String>))
    ensures
        r.0@ == mode_of_args(strings_view(tool_args@)),
        strings_view(r.1@) == args_without_mode(strings_view(tool_args@)),
{
    let ghost av = strings_view(tool_args@);
    let mut filtered: Vec<String> = Vec::new();
    let mut mode: &'static str = "debug";
    let mut i: usize = 0;
    while i < tool_args.len()
        invariant
            i <= tool_args.len(),
            av == strings_view(tool_args@),
            mode@ == mode_of_args(av.subrange(0, i as int)),
            strings_view(filtered@) == args_without_mode(av.subrange(0, i as int)),
        decreases tool_args.len() - i,
    {
        let ghost pre = av.subrange(0, i as int);
        assert(av.subrange(0, i + 1).drop_last() =~= pre);
        assert(av.subrange(0, i + 1).last() == tool_args@[i as int]@);
        if str_eq(tool_args[i].as_str(), "--profile") {
            mode = "profile";
        } else if str_eq(tool_args[i].as_str(), "--release") {
            proof {
                reveal_strlit("--profile");
                reveal_strlit("--release");
                assert("--profile"@[3] != "--release"@[3]);
            }
            mode = "release";
        } else {
            filtered.push(tool_args[i].clone());
            assert(strings_view(filtered@) =~= args_without_mode(av.subrange(0, i as int)).push(
                tool_args@[i as int]@,
            ));
        }
        i += 1;
    }
    assert(av.subrange(0, tool_args.len() as int) =~= av);
    (mode, filtered)
}

/// The members of a launch configuration, in key order: `args`, `cwd`, for
/// Flutter `deviceId: chrome`, `flutterMode` (`debug` unless given) and
/// `platform: web`, the environment as an object when there is one,
/// `program`, `request: launch`, `sendLogsToClient: true`, `stopOnEntry`, the
/// tool arguments when there are any, and `type`.
pub open spec fn launch_members(
    debug_mode: Seq<char>,
    program: Seq<char>,
    cwd: Option<Seq<char>>,
    args: Seq<Seq<char>>,
    envs: Seq<(Seq<char>, Seq<char>)>,
    stop_on_entry: bool,
    tool_args: Seq<Seq<char>>,
    flutter_mode: Option<Seq<char>>,
) -> Seq<(Seq<char>, JsonView)> {
    let flutter = debug_mode == "flutter"@;
    let s1 = seq![("args"@, JsonView::StrArray(args))];
    let s2 = s1.push(
        (
            "cwd"@,
            JsonView::Str(
                match cwd {
                    Some(c) => c,
                    None => Seq::empty(),
                },
            ),
        ),
    );
    let s3 = push_if(s2, flutter, "deviceId"@, JsonView::Str("chrome"@));
    let s4 = push_if(s3, envs.len() > 0, "env"@, JsonView::StrObject(envs));
    let s5 = push_if(
        s4,
        flutter,
        "flutterMode"@,
        JsonView::Str(
            match flutter_mode {
                Some(m) => m,
                None => "debug"@,
            },
        ),
    );
    let s6 = push_if(s5, flutter, "platform"@, JsonView::Str("web"@));
    let s7 = s6.push(("program"@, JsonView::Str(program))).push(
        ("request"@, JsonView::Str("launch"@)),
    ).push(("sendLogsToClient"@, JsonView::Bool(true))).push(
        ("stopOnEntry"@, JsonView::Bool(stop_on_entry)),
    );
    let s8 = push_if(s7, tool_args.len() > 0, "toolArgs"@, JsonView::StrArray(tool_args));
    s8.push(("type"@, JsonView::Str(debug_mode)))
}

/// Appends a member.
fn push_member(members: &mut Vec<(String, JsonValue)>, key: &str, value: JsonValue)
    ensures
        entries_view(final(members)@) == entries_view(old(members)@).push((key@, value@)),
{
    members.push((owned(key), value));
    assert(entries_view(members@) =~= entries_view(old(members)@).push((key@, value@)));
}

/// The launch configuration of a debug scenario, as the members of a JSON
/// object (see `launch_members`).
pub fn build_launch_config_value(
    debug_mode: &str,
    program: &str,
    cwd: Option<String>,
    args: Vec<String>,
    envs: Vec<(String, String)>,
    stop_on_entry: bool,
    tool_args: Vec<String>,
    flutter_mode: Option<&str>,
) -> (r: Vec<(String, JsonValue)>)
    ensures
        entries_view(r@) == launch_members(
            debug_mode@,
            program@,
            opt_view(cwd),
            strings_view(args@),
            pairs_view(envs@),
            stop_on_entry,
            strings_view(tool_args@),
            match flutter_mode {
                Some(m) => Some(m@),
                None => None,
            },
        ),
{
    let flutter = str_eq(debug_mode, "flutter");
    let ghost fm = match flutter_mode {
        Some(m) => Some(m@),
        None => None,
    };
    let ghost cv = opt_view(cwd);
    let ghost ev = pairs_view(envs@);
    let ghost tv = strings_view(tool_args@);
    let mut m: Vec<(String, JsonValue)> = Vec::new();
    push_member(&mut m, "args", JsonValue::StrArray(args));
    let cwd_text = match cwd {
        Some(c) => c,
        None => String::new(),
    };
    push_member(&mut m, "cwd", JsonValue::Str(cwd_text));
    if flutter {
        push_member(&mut m, "deviceId", JsonValue::Str(owned("chrome")));
    }
    if envs.len() > 0 {
        push_member(&mut m, "env", JsonValue::StrObject(envs));
    }
    if flutter {
        let mode = match flutter_mode {
            Some(f) => owned(f),
            None => owned("debug"),
        };
        push_member(&mut m, "flutterMode", JsonValue::Str(mode));
        push_member(&mut m, "platform", JsonValue::Str(owned("web")));
    }
    push_member(&mut m, "program", JsonValue::Str(owned(program)));
    push_member(&mut m, "request", JsonValue::Str(owned("launch")));
    push_member(&mut m, "sendLogsToClient", JsonValue::Bool(true));
    push_member(&mut m, "stopOnEntry", JsonValue::Bool(stop_on_entry));
    let has_tool_args = tool_args.len() > 0;
    if has_tool_args {
        push_member(&mut m, "toolArgs", JsonValue::StrArray(tool_args));
    }
    push_member(&mut m, "type", JsonValue::Str(owned(debug_mode)));
    m
}

/// A task template that runs a program.
#[derive(Debug)]
pub struct RunTask {
    pub label: String,
    pub command: String,
    pub args: Vec<String>,
    pub env: Vec<(String, String)>,
    pub cwd: Option<String>,
}

/// A debug scenario: the adapter, its label and its launch configuration (a
/// JSON object).
#[derive(Debug)]
pub struct DebugScenarioSpec {
    pub adapter: String,
    pub label: String,
    pub config: String,
}

/// The kinds of run task that have a debug scenario.
pub enum TaskShape {
    /// `flutter run …`
    FlutterRun,
    /// `fvm flutter run …`
    FvmFlutterRun,
    /// `dart run <program> …`
    DartRun,
    /// `fvm dart run <program> …`
    FvmDartRun,
    /// anything else
    Other,
}

/// The kind of a run task.
pub open spec fn task_shape(t: RunTask) -> TaskShape {
    let a = strings_view(t.args@);
    if t.command@ == "flutter"@ && a.len() >= 1 && a[0] == "run"@ {
        TaskShape::FlutterRun
    } else if t.command@ == "fvm"@ && a.len() >= 2 && a[0] == "flutter"@ && a[1] == "run"@ {
        TaskShape::FvmFlutterRun
    } else if t.command@ == "dart"@ && a.len() >= 2 && a[0] == "run"@ {
        TaskShape::DartRun
    } else if t.command@ == "fvm"@ && a.len() >= 3 && a[0] == "dart"@ && a[1] == "run"@ {
        TaskShape::FvmDartRun
    } else {
        TaskShape::Other
    }
}

/// `m` with `useFvm: true` at its end when `fvm` holds.
pub open spec fn with_fvm(m: Seq<(Seq<char>, JsonView)>, fvm: bool) -> Seq<(Seq<char>, JsonView)> {
    if fvm {
        m.push(("useFvm"@, JsonView::Bool(true)))
    } else {
        m
    }
}

/// The launch configuration of a `flutter run` task whose arguments after
/// `run` are `rest`: a Flutter launch of `lib/main.dart` in the build mode
/// the arguments select, with the other arguments and `-d chrome` unless they
/// name a device.
pub open spec fn flutter_task_members(t: RunTask, rest: Seq<Seq<char>>, fvm: bool) -> Seq<
    (Seq<char>, JsonView),
> {
    with_fvm(
        launch_members(
            "flutter"@,
            "lib/main.dart"@,
            opt_view(t.cwd),
            Seq::empty(),
            pairs_view(t.env@),
            false,
            device_tool_args("flutter"@, "launch"@, "chrome"@, args_without_mode(rest)),
            Some(mode_of_args(rest)),
        ),
        fvm,
    )
}

/// The launch configuration of a `dart run <program>` task with the further
/// arguments `rest` as tool arguments, in the debug mode of the program.
pub open spec fn dart_task_members(
    t: RunTask,
    program: Seq<char>,
    rest: Seq<Seq<char>>,
    fvm: bool,
    ms: Seq<PackageManifest>,
) -> Seq<(Seq<char>, JsonView)> {
    with_fvm(
        launch_members(
            debug_mode_for(program, opt_view(t.cwd), ms),
            program,
            opt_view(t.cwd),
            Seq::empty(),
            pairs_view(t.env@),
            false,
            rest,
            None,
        ),
        fvm,
    )
}

/// The label and launch configuration of the scenario for a task.
pub open spec fn task_scenario(t: RunTask, resolved_label: Seq<char>, ms: Seq<PackageManifest>) -> (
    Seq<char>,
    Seq<(Seq<char>, JsonView)>,
) {
    let a = strings_view(t.args@);
    match task_shape(t) {
        TaskShape::FlutterRun => {
            let rest = a.subrange(1, a.len() as int);
            (
                if mode_of_args(rest) == "debug"@ {
                    debug_label(resolved_label)
                } else {
                    resolved_label
                },
                flutter_task_members(t, rest, false),
            )
        },
        TaskShape::FvmFlutterRun => {
            let rest = a.subrange(2, a.len() as int);
            (
                if mode_of_args(rest) == "debug"@ {
                    debug_label(resolved_label)
                } else {
                    resolved_label
                },
                flutter_task_members(t, rest, true),
            )
        },
        TaskShape::DartRun => (
            debug_label(resolved_label),
            dart_task_members(t, a[1], a.subrange(2, a.len() as int), false, ms),
        ),
        _ => (
            debug_label(resolved_label),
            dart_task_members(t, a[2], a.subrange(3, a.len() as int), true, ms),
        ),
    }
}

/// The values the key `env` gets from an environment: the environment as an
/// object, once, when it is not empty; none otherwise.
pub open spec fn env_values(envs: Seq<(Seq<char>, Seq<char>)>) -> Seq<JsonView> {
    if envs.len() > 0 {
        seq![JsonView::StrObject(envs)]
    } else {
        Seq::empty()
    }
}

/// The keys of a launch configuration other than `env`, and `useFvm`, differ
/// from `env`.
proof fn lemma_env_key_distinct()
    ensures
        "env"@ != "args"@,
        "env"@ != "cwd"@,
        "env"@ != "deviceId"@,
        "env"@ != "flutterMode"@,
        "env"@ != "platform"@,
        "env"@ != "program"@,
        "env"@ != "request"@,
        "env"@ != "sendLogsToClient"@,
        "env"@ != "stopOnEntry"@,
        "env"@ != "toolArgs"@,
        "env"@ != "type"@,
        "env"@ != "useFvm"@,
{
    reveal_strlit("env");
    reveal_strlit("args");
    reveal_strlit("cwd");
    reveal_strlit("deviceId");
    reveal_strlit("flutterMode");
    reveal_strlit("platform");
    reveal_strlit("program");
    reveal_strlit("request");
    reveal_strlit("sendLogsToClient");
    reveal_strlit("stopOnEntry");
    reveal_strlit("toolArgs");
    reveal_strlit("type");
    reveal_strlit("useFvm");
    assert("env"@.len() == 3);
    assert("args"@.len() == 4);
    assert("deviceId"@.len() == 8);
    assert("flutterMode"@.len() == 11);
    assert("platform"@.len() == 8);
    assert("program"@.len() == 7);
    assert("request"@.len() == 7);
    assert("sendLogsToClient"@.len() == 16);
    assert("stopOnEntry"@.len() == 11);
    assert("toolArgs"@.len() == 8);
    assert("type"@.len() == 4);
    assert("useFvm"@.len() == 6);
    assert("env"@[0] != "cwd"@[0]);
}

/// A launch configuration holds the environment under `env`, as an object,
/// exactly when the environment is not empty.
proof fn lemma_launch_env(
    debug_mode: Seq<char>,
    program: Seq<char>,
    cwd: Option<Seq<char>>,
    args: Seq<Seq<char>>,
    envs: Seq<(Seq<char>, Seq<char>)>,
    stop_on_entry: bool,
    tool_args: Seq<Seq<char>>,
    flutter_mode: Option<Seq<char>>,
)
    ensures
        key_values(
            launch_members(debug_mode, program, cwd, args, envs, stop_on_entry, tool_args, flutter_mode),
            "env"@,
        ) == env_values(envs),
{
    broadcast use crate::json::lemma_key_values_push;
    lemma_env_key_distinct();
    let k = "env"@;
    let flutter = debug_mode == "flutter"@;
    let s1 = seq![("args"@, JsonView::StrArray(args))];
    assert(s1 == Seq::<(Seq<char>, JsonView)>::empty().push(("args"@, JsonView::StrArray(args))));
    assert(key_values(Seq::<(Seq<char>, JsonView)>::empty(), k) =~= Seq::<JsonView>::empty());
    let s2 = s1.push(
        (
            "cwd"@,
            JsonView::Str(
                match cwd {
                    Some(c) => c,
                    None => Seq::empty(),
                },
            ),
        ),
    );
    assert(key_values(s2, k) =~= Seq::<JsonView>::empty());
    let s3 = push_if(s2, flutter, "deviceId"@, JsonView::Str("chrome"@));
    assert(key_values(s3, k) =~= Seq::<JsonView>::empty());
    let s4 = push_if(s3, envs.len() > 0, "env"@, JsonView::StrObject(envs));
    assert(key_values(s4, k) =~= env_values(envs));
    let s5 = push_if(
        s4,
        flutter,
        "flutterMode"@,
        JsonView::Str(
            match flutter_mode {
                Some(m) => m,
                None => "debug"@,
            },
        ),
    );
    assert(key_values(s5, k) =~= env_values(envs));
    let s6 = push_if(s5, flutter, "platform"@, JsonView::Str("web"@));
    assert(key_values(s6, k) =~= env_values(envs));
    let s7 = s6.push(("program"@, JsonView::Str(program))).push(
        ("request"@, JsonView::Str("launch"@)),
    ).push(("sendLogsToClient"@, JsonView::Bool(true))).push(
        ("stopOnEntry"@, JsonView::Bool(stop_on_entry)),
    );
    assert(key_values(s6.push(("program"@, JsonView::Str(program))), k) =~= env_values(envs));
    assert(key_values(s6.push(("program"@, JsonView::Str(program))).push(
        ("request"@, JsonView::Str("launch"@)),
    ), k) =~= env_values(envs));
    assert(key_values(s6.push(("program"@, JsonView::Str(program))).push(
        ("request"@, JsonView::Str("launch"@)),
    ).push(("sendLogsToClient"@, JsonView::Bool(true))), k) =~= env_values(envs));
    assert(key_values(s7, k) =~= env_values(envs));
    let s8 = push_if(s7, tool_args.len() > 0, "toolArgs"@, JsonView::StrArray(tool_args));
    assert(key_values(s8, k) =~= env_values(envs));
    assert(key_values(s8.push(("type"@, JsonView::Str(debug_mode))), k) =~= env_values(envs));
}

/// `useFvm` leaves the values of `env` as they are.
proof fn lemma_with_fvm_env(m: Seq<(Seq<char>, JsonView)>, fvm: bool)
    ensures
        key_values(with_fvm(m, fvm), "env"@) == key_values(m, "env"@),
{
    broadcast use crate::json::lemma_key_values_push;
    lemma_env_key_distinct();
}

/// Law: every run task that has a scenario (`flutter run`, `fvm flutter run`,
/// `dart run`, `fvm dart run`) hands its environment to the launch: the launch
/// configuration has the member `env`, once, holding the task's environment
/// as an object, when that environment is not empty, and no `env` otherwise.
pub proof fn law_task_scenario_keeps_env(
    t: RunTask,
    resolved_label: Seq<char>,
    ms: Seq<PackageManifest>,
)
    requires
        !(task_shape(t) is Other),
    ensures
        key_values(task_scenario(t, resolved_label, ms).1, "env"@) == env_values(pairs_view(t.env@)),
{
    let a = strings_view(t.args@);
    match task_shape(t) {
        TaskShape::FlutterRun => {
            let rest = a.subrange(1, a.len() as int);
            lemma_launch_env(
                "flutter"@,
                "lib/main.dart"@,
                opt_view(t.cwd),
                Seq::empty(),
                pairs_view(t.env@),
                false,
                device_tool_args("flutter"@, "launch"@, "chrome"@, args_without_mode(rest)),
                Some(mode_of_args(rest)),
            );
            lemma_with_fvm_env(
                launch_members(
                    "flutter"@,
                    "lib/main.dart"@,
                    opt_view(t.cwd),
                    Seq::empty(),
                    pairs_view(t.env@),
                    false,
                    device_tool_args("flutter"@, "launch"@, "chrome"@, args_without_mode(rest)),
                    Some(mode_of_args(rest)),
                ),
                false,
            );
        },
        TaskShape::FvmFlutterRun => {
            let rest = a.subrange(2, a.len() as int);
            lemma_launch_env(
                "flutter"@,
                "lib/main.dart"@,
                opt_view(t.cwd),
                Seq::empty(),
                pairs_view(t.env@),
                false,
                device_tool_args("flutter"@, "launch"@, "chrome"@, args_without_mode(rest)),
                Some(mode_of_args(rest)),
            );
            lemma_with_fvm_env(
                launch_members(
                    "flutter"@,
                    "lib/main.dart"@,
                    opt_view(t.cwd),
                    Seq::empty(),
                    pairs_view(t.env@),
                    false,
                    device_tool_args("flutter"@, "launch"@, "chrome"@, args_without_mode(rest)),
                    Some(mode_of_args(rest)),
                ),
                true,
            );
        },
        TaskShape::DartRun => {
            let program = a[1];
            let dm = debug_mode_for(program, opt_view(t.cwd), ms);
            let rest = a.subrange(2, a.len() as int);
            lemma_launch_env(dm, program, opt_view(t.cwd), Seq::empty(), pairs_view(t.env@), false, rest, None);
            lemma_with_fvm_env(
                launch_members(dm, program, opt_view(t.cwd), Seq::empty(), pairs_view(t.env@), false, rest, None),
                false,
            );
        },
        _ => {
            let program = a[2];
            let dm = debug_mode_for(program, opt_view(t.cwd), ms);
            let rest = a.subrange(3, a.len() as int);
            lemma_launch_env(dm, program, opt_view(t.cwd), Seq::empty(), pairs_view(t.env@), false, rest, None);
            lemma_with_fvm_env(
                launch_members(dm, program, opt_view(t.cwd), Seq::empty(), pairs_view(t.env@), false, rest, None),
                true,
            );
        },
    }
}

/// The strings of `v` from index `k` on.
pub fn strings_from(v: &Vec<String>, k: usize) -> (r: Vec<String>)
    requires
        k <= v.len(),
    ensures
        strings_view(r@) == strings_view(v@).subrange(k as int, v@.len() as int),
{
    let mut r: Vec<String> = Vec::new();
    let mut i: usize = k;
    while i < v.len()
        invariant
            k <= i <= v.len(),
            r@.len() == i - k,
            forall|t: int| 0 <= t < r@.len() ==> r@[t]@ == v@[k + t]@,
        decreases v.len() - i,
    {
        r.push(v[i].clone());
        i += 1;
    }
    assert(strings_view(r@) =~= strings_view(v@).subrange(k as int, v@.len() as int));
    r
}

/// The kind of a run task.
fn task_shape_exec(task: &RunTask) -> (r: u8)
    ensures
        r == 0 <==> task_shape(*task) is FlutterRun,
        r == 1 <==> task_shape(*task) is FvmFlutterRun,
        r == 2 <==> task_shape(*task) is DartRun,
        r == 3 <==> task_shape(*task) is FvmDartRun,
        r == 4 <==> task_shape(*task) is Other,
{
    let a = &task.args;
    let c = task.command.as_str();
    if str_eq(c, "flutter") && a.len() >= 1 && str_eq(a[0].as_str(), "run") {
        0
    } else if str_eq(c, "fvm") && a.len() >= 2 && str_eq(a[0].as_str(), "flutter") && str_eq(
        a[1].as_str(),
        "run",
    ) {
        1
    } else if str_eq(c, "dart") && a.len() >= 2 && str_eq(a[0].as_str(), "run") {
        2
    } else if str_eq(c, "fvm") && a.len() >= 3 && str_eq(a[0].as_str(), "dart") && str_eq(
        a[1].as_str(),
        "run",
    ) {
        3
    } else {
        4
    }
}

/// The directories to read manifests for before `build_debug_scenario_from_task`:
/// those of the program of a `dart run` task (`package_probe_dirs`), none for
/// other tasks.
pub fn scenario_probe_dirs(task: &RunTask) -> (r: Vec<String>)
    ensures
        task_shape(*task) is DartRun ==> strings_view(r@) == probe_dirs(
            strings_view(task.args@)[1],
            opt_view(task.cwd),
        ),
        task_shape(*task) is FvmDartRun ==> strings_view(r@) == probe_dirs(
            strings_view(task.args@)[2],
            opt_view(task.cwd),
        ),
        !(task_shape(*task) is DartRun || task_shape(*task) is FvmDartRun) ==> r@.len() == 0,
{
    let shape = task_shape_exec(task);
    let cwd = match &task.cwd {
        Some(c) => Some(c.as_str()),
        None => None,
    };
    if shape == 2 {
        package_probe_dirs(task.args[1].as_str(), cwd)
    } else if shape == 3 {
        package_probe_dirs(task.args[2].as_str(), cwd)
    } else {
        Vec::new()
    }
}

/// The launch configuration of a `flutter run` task (`flutter_task_members`).
fn flutter_task_config(task: &RunTask, rest: &Vec<String>, fvm: bool) -> (r: (&'static str, String))
    ensures
        r.0@ == mode_of_args(strings_view(rest@)),
        r.1@ == render_object(flutter_task_members(*task, strings_view(rest@), fvm)),
{
    let (flutter_mode, tool_args) = flutter_mode_from_tool_args(rest);
    let no_args: Vec<String> = Vec::new();
    assert(strings_view(no_args@) =~= Seq::<Seq<char>>::empty());
    let mut m = build_launch_config_value(
        "flutter",
        "lib/main.dart",
        crate::adapter::clone_opt_string(&task.cwd),
        no_args,
        clone_pairs(&task.env),
        false,
        ensure_flutter_device_tool_args("flutter", "launch", "chrome", tool_args),
        Some(flutter_mode),
    );
    if fvm {
        push_member(&mut m, "useFvm", JsonValue::Bool(true));
    }
    (flutter_mode, render_object_text(&m))
}

/// The launch configuration of a `dart run <program>` task (`dart_task_members`).
fn dart_task_config(
    task: &RunTask,
    program: &str,
    rest: Vec<String>,
    fvm: bool,
    manifests: &Vec<PackageManifest>,
) -> (r: String)
    ensures
        r@ == render_object(dart_task_members(*task, program@, strings_view(rest@), fvm, manifests@)),
{
    let cwd = match &task.cwd {
        Some(c) => Some(c.as_str()),
        None => None,
    };
    let mode = infer_debug_mode(program, cwd, manifests);
    assert(opt_view(task.cwd) == match cwd {
        Some(c) => Some(c@),
        None => None,
    });
    let no_args: Vec<String> = Vec::new();
    assert(strings_view(no_args@) =~= Seq::<Seq<char>>::empty());
    let mut m = build_launch_config_value(
        mode,
        program,
        crate::adapter::clone_opt_string(&task.cwd),
        no_args,
        clone_pairs(&task.env),
        false,
        rest,
        None,
    );
    if fvm {
        push_member(&mut m, "useFvm", JsonValue::Bool(true));
    }
    render_object_text(&m)
}

/// The debug scenario for a run task: `flutter run` and `fvm flutter run`
/// tasks become Flutter launches of `lib/main.dart`, `dart run <program>` and
/// `fvm dart run <program>` tasks launches of the program in its debug mode
/// (see `infer_debug_mode`; `manifests` holds what was read for the
/// directories of `scenario_probe_dirs`); FVM scenarios carry `useFvm: true`.
/// Labels `Run …` become `Debug …`, except for a Flutter task in profile or
/// release mode. Other tasks have no scenario.
pub fn build_debug_scenario_from_task(
    task: &RunTask,
    resolved_label: String,
    debug_adapter_name: String,
    manifests: &Vec<PackageManifest>,
) -> (r: Option<DebugScenarioSpec>)
    ensures
        r is None <==> task_shape(*task) is Other,
        r matches Some(s) ==> {
            let (label, members) = task_scenario(*task, resolved_label@, manifests@);
            &&& s.adapter@ == debug_adapter_name@
            &&& s.label@ == label
            &&& s.config@ == render_object(members)
        },
{
    let shape = task_shape_exec(task);
    let ghost a = strings_view(task.args@);
    if shape == 0 || shape == 1 {
        let skip: usize = if shape == 0 { 1 } else { 2 };
        let rest = strings_from(&task.args, skip);
        let (flutter_mode, config) = flutter_task_config(task, &rest, shape == 1);
        let label = if str_eq(flutter_mode, "debug") {
            debug_label_from_resolved_label(resolved_label.as_str())
        } else {
            resolved_label
        };
        Some(DebugScenarioSpec { adapter: debug_adapter_name, label, config })
    } else if shape == 2 || shape == 3 {
        let at: usize = if shape == 2 { 1 } else { 2 };
        let rest = strings_from(&task.args, at + 1);
        let config = dart_task_config(task, task.args[at].as_str(), rest, shape == 3, manifests);
        Some(
            DebugScenarioSpec {
                adapter: debug_adapter_name,
                label: debug_label_from_resolved_label(resolved_label.as_str()),
                config,
            },
        )
    } else {
        None
    }
}

/// A debug session request of Zed's debug configuration.
#[derive(Debug)]
pub enum DebugRequestSpec {
    Launch { program: String, cwd: Option<String>, args: Vec<String>, envs: Vec<(String, String)> },
    Attach,
}

/// Zed's debug configuration, as far as the extension reads it.
#[derive(Debug)]
pub struct DebugConfigSpec {
    pub label: String,
    pub adapter: String,
    pub request: DebugRequestSpec,
    pub stop_on_entry: Option<bool>,
}

/// The launch configuration of a scenario made from Zed's debug configuration.
pub open spec fn config_scenario_members(c: DebugConfigSpec, ms: Seq<PackageManifest>) -> Seq<
    (Seq<char>, JsonView),
> {
    let stop = c.stop_on_entry == Some(true);
    match c.request {
        DebugRequestSpec::Launch { program, cwd, args, envs } => launch_members(
            debug_mode_for(program@, opt_view(cwd), ms),
            program@,
            opt_view(cwd),
            strings_view(args@),
            pairs_view(envs@),
            stop,
            Seq::empty(),
            None,
        ),
        DebugRequestSpec::Attach => seq![
            ("program"@, JsonView::Str("lib/main.dart"@)),
            ("request"@, JsonView::Str("attach"@)),
            ("sendLogsToClient"@, JsonView::Bool(true)),
            ("stopOnEntry"@, JsonView::Bool(stop)),
            ("type"@, JsonView::Str("dart"@)),
        ],
    }
}

/// The directories to read manifests for before `dap_config_to_scenario`:
/// those of the program of a launch (`package_probe_dirs`), none for an attach.
pub fn config_probe_dirs(config: &DebugConfigSpec) -> (r: Vec<String>)
    ensures
        config.request matches DebugRequestSpec::Launch { program, cwd, .. } ==> strings_view(r@)
            == probe_dirs(program@, opt_view(cwd)),
        config.request is Attach ==> r@.len() == 0,
{
    match &config.request {
        DebugRequestSpec::Launch { program, cwd, .. } => {
            let c = match cwd {
                Some(c) => Some(c.as_str()),
                None => None,
            };
            package_probe_dirs(program.as_str(), c)
        },
        DebugRequestSpec::Attach => Vec::new(),
    }
}

/// The debug scenario for Zed's debug configuration: a launch becomes a launch
/// of the program in its debug mode (`infer_debug_mode`, with `manifests` read
/// for `config_probe_dirs`) with its arguments and environment; an attach
/// becomes a Dart attach to `lib/main.dart`. Never fails.
pub fn dap_config_to_scenario(config: DebugConfigSpec, manifests: &Vec<PackageManifest>) -> (r:
    Result<DebugScenarioSpec, String>)
    ensures
        r matches Ok(s) && s.adapter@ == config.adapter@ && s.label@ == config.label@
            && s.config@ == render_object(config_scenario_members(config, manifests@)),
{
    let stop = match config.stop_on_entry {
        Some(b) => b,
        None => false,
    };
    let ghost c = config;
    let config_json = match config.request {
        DebugRequestSpec::Launch { program, cwd, args, envs } => {
            let ghost cv = opt_view(cwd);
            let mode = {
                let c2 = match &cwd {
                    Some(d) => Some(d.as_str()),
                    None => None,
                };
                let m = infer_debug_mode(program.as_str(), c2, manifests);
                assert(cv == match c2 {
                    Some(d) => Some(d@),
                    None => None,
                });
                m
            };
            let no_tool_args: Vec<String> = Vec::new();
            assert(strings_view(no_tool_args@) =~= Seq::<Seq<char>>::empty());
            let m = build_launch_config_value(
                mode,
                program.as_str(),
                cwd,
                args,
                envs,
                stop,
                no_tool_args,
                None,
            );
            render_object_text(&m)
        },
        DebugRequestSpec::Attach => {
            let mut m: Vec<(String, JsonValue)> = Vec::new();
            push_member(&mut m, "program", JsonValue::Str(owned("lib/main.dart")));
            push_member(&mut m, "request", JsonValue::Str(owned("attach")));
            push_member(&mut m, "sendLogsToClient", JsonValue::Bool(true));
            push_member(&mut m, "stopOnEntry", JsonValue::Bool(stop));
            push_member(&mut m, "type", JsonValue::Str(owned("dart")));
            assert(entries_view(m@) =~= config_scenario_members(c, manifests@));
            render_object_text(&m)
        },
    };
    Ok(DebugScenarioSpec { adapter: config.adapter, label: config.label, config: config_json })
}

/// The debug scenario Zed's `dart` locator creates for the `Dart` adapter
/// (`build_debug_scenario_from_task`); none for other locators or adapters.
pub fn dap_locator_create_scenario(
    locator_name: &str,
    build_task: &RunTask,
    resolved_label: String,
    debug_adapter_name: String,
    manifests: &Vec<PackageManifest>,
) -> (r: Option<DebugScenarioSpec>)
    ensures
        locator_name@ != "dart"@ || debug_adapter_name@ != "Dart"@ ==> r is None,
        locator_name@ == "dart"@ && debug_adapter_name@ == "Dart"@ ==> (r is None <==> task_shape(
            *build_task,
        ) is Other),
        r matches Some(s) ==> {
            let (label, members) = task_scenario(*build_task, resolved_label@, manifests@);
            &&& s.adapter@ == debug_adapter_name@
            &&& s.label@ == label
            &&& s.config@ == render_object(members)
        },
{
    if !str_eq(locator_name, "dart") || !str_eq(debug_adapter_name.as_str(), "Dart") {
        return None;
    }
    build_debug_scenario_from_task(build_task, resolved_label, debug_adapter_name, manifests)
}

/// The `dart` locator's build phase: its scenarios resolve directly, so
/// running it is always refused.
pub fn run_dap_locator() -> (r: Result<DebugRequestSpec, String>)
    ensures
        r matches Err(e) && e@ == "Dart locator scenarios resolve directly and do not use a build phase"@,
{
    Err(owned("Dart locator scenarios resolve directly and do not use a build phase"))
}

} // verus!
