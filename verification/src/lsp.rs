//! Which Dart binary runs the language server, with which arguments, and the
//! workspace configuration the server is sent.

use vstd::prelude::*;
use crate::json::strings_view;
use crate::text::owned;

verus! {

/// The Dart executable that runs the language server, and the arguments
/// that the user's settings give it, if any.
#[derive(Debug)]
pub struct DartBinary {
    pub path: String,
    pub args: Option<Vec<String>>,
}

/// The error when no Dart executable can be found.
pub open spec fn missing_dart_message() -> Seq<char> {
    "dart must be installed from dart.dev/get-dart or pointed to by the LSP binary settings"@
}

/// The arguments the language server is started with when the settings give
/// none.
pub open spec fn default_server_args() -> Seq<Seq<char>> {
    seq!["language-server"@, "--protocol=lsp"@]
}

/// The binary: the path of the `dart` LSP binary settings if they give one,
/// else the `dart` found on the worktree's search path, else an error. The
/// arguments of the settings are kept either way.
pub fn language_server_binary(
    configured_path: Option<String>,
    configured_args: Option<Vec<String>>,
    dart_on_path: Option<String>,
) -> (r: Result<DartBinary, String>)
    ensures
        match (configured_path, dart_on_path) {
            (Some(p), _) => r matches Ok(b) && b.path@ == p@ && b.args == configured_args,
            (None, Some(p)) => r matches Ok(b) && b.path@ == p@ && b.args == configured_args,
            (None, None) => r matches Err(e) && e@ == missing_dart_message(),
        },
{
    if let Some(path) = configured_path {
        return Ok(DartBinary { path, args: configured_args });
    }
    if let Some(path) = dart_on_path {
        return Ok(DartBinary { path, args: configured_args });
    }
    Err(
        owned(
            "dart must be installed from dart.dev/get-dart or pointed to by the LSP binary settings",
        ),
    )
}

/// The command that starts the language server: the binary's path and its
/// arguments, or `language-server --protocol=lsp` where it has none.
pub fn language_server_command(binary: DartBinary) -> (r: (String, Vec<String>))
    ensures
        r.0@ == binary.path@,
        strings_view(r.1@) == match binary.args {
            Some(a) => strings_view(a@),
            None => default_server_args(),
        },
{
    let args = match binary.args {
        Some(a) => a,
        None => {
            let mut a: Vec<String> = Vec::new();
            a.push(owned("language-server"));
            a.push(owned("--protocol=lsp"));
            assert(strings_view(a@) =~= default_server_args());
            a
        },
    };
    (binary.path, args)
}

/// The workspace configuration as JSON text: the `dart` settings, given as
/// JSON text, under the key `dart`, or `null` there when there are none.
pub open spec fn workspace_configuration_text(settings: Option<Seq<char>>) -> Seq<char> {
    "{\"dart\":"@ + match settings {
        Some(s) => s,
        None => "null"@,
    } + "}"@
}

/// The workspace configuration (see `workspace_configuration_text`).
pub fn workspace_configuration(settings: Option<&str>) -> (r: String)
    ensures
        r@ == workspace_configuration_text(
            match settings {
                Some(s) => Some(s@),
                None => None,
            },
        ),
{
    let mut r = owned("{\"dart\":");
    match settings {
        Some(s) => r.append(s),
        None => r.append("null"),
    }
    r.append("}");
    r
}

} // verus!
