//! Dart VM service URIs and the info files in which Flutter launches record
//! them.

use vstd::prelude::*;
use crate::json::{json_members, member_str, members_of, parse_json_text, parsed_json, str_member};
use crate::paths::{
    extension, extension_of, is_absolute, is_absolute_path, join, join_path,
};
use crate::text::{
    decimal, decimal_text,
    chars_of, concat, contains_seq, is_prefix, is_suffix, is_whitespace, lemma_trim_bounds, owned,
    push_char, str_eq, trim_start,
    strip_prefix, trim, trim_str, vec_contains, vec_ends_with, string_of_range,
};

verus! {

/// Where Flutter launches record their VM service info files, relative to the
/// worktree root.
pub open spec fn info_dir_rel() -> Seq<char> {
    ".zed/dart/vmservice-info"@
}

/// `t` starts with one of the schemes the VM service can be reached by.
pub open spec fn has_vm_service_scheme(t: Seq<char>) -> bool {
    is_prefix("ws://"@, t) || is_prefix("wss://"@, t) || is_prefix("http://"@, t) || is_prefix(
        "https://"@,
        t,
    )
}

/// The URI that `normalize_vm_service_uri` gives for a non-blank input: the
/// trimmed input, with `http://` in front unless it already names a scheme.
pub open spec fn normalized_uri(u: Seq<char>) -> Seq<char> {
    let t = trim(u);
    if has_vm_service_scheme(t) {
        t
    } else {
        "http://"@ + t
    }
}

/// The error for a blank VM service URI.
pub open spec fn uri_required_error() -> Seq<char> {
    "VM service URI is required"@
}

/// Trims a VM service URI and gives it `http://` when it names no scheme.
/// Fails when the URI is blank.
pub fn normalize_vm_service_uri(vm_service_uri: &str) -> (r: Result<String, String>)
    ensures
        r is Err <==> trim(vm_service_uri@).len() == 0,
        r matches Ok(u) ==> u@ == normalized_uri(vm_service_uri@),
        r matches Err(e) ==> e@ == uri_required_error(),
{
    let trimmed = trim_str(vm_service_uri);
    if trimmed.as_str().unicode_len() == 0 {
        return Err(owned("VM service URI is required"));
    }
    let t = trimmed.as_str();
    if starts_with_scheme(t) {
        Ok(trimmed)
    } else {
        Ok(concat("http://", t))
    }
}

/// Whether `t` starts with `ws://`, `wss://`, `http://` or `https://`.
pub fn starts_with_scheme(t: &str) -> (r: bool)
    ensures
        r == has_vm_service_scheme(t@),
{
    crate::text::starts_with(t, "ws://") || crate::text::starts_with(t, "wss://")
        || crate::text::starts_with(t, "http://") || crate::text::starts_with(t, "https://")
}

/// `s` without any trailing `/` characters (`str::trim_end_matches('/')`).
pub open spec fn trim_trailing_slashes(s: Seq<char>) -> Seq<char>
    decreases s.len(),
{
    if s.len() > 0 && s.last() == '/' {
        trim_trailing_slashes(s.drop_last())
    } else {
        s
    }
}

/// The path part of a VM service URI, made to end in the `/ws` endpoint.
pub open spec fn ws_path(u: Seq<char>) -> Seq<char> {
    if is_suffix("/ws"@, u) || is_suffix("/ws/"@, u) {
        trim_trailing_slashes(u)
    } else if u.len() > 0 && u.last() == '/' {
        u + "ws"@
    } else if u.contains('/') {
        u
    } else {
        u + "/ws"@
    }
}

/// Gives a scheme-less VM service URI the `/ws` endpoint: a URI already ending
/// in `/ws` or `/ws/` loses its trailing slashes, one ending in `/` gets `ws`,
/// one with a path is kept, and a bare host gets `/ws`.
pub fn ensure_vm_service_ws_path(uri_without_scheme: &str) -> (r: String)
    ensures
        r@ == ws_path(uri_without_scheme@),
{
    let v = chars_of(uri_without_scheme);
    if crate::text::ends_with(uri_without_scheme, "/ws") || crate::text::ends_with(
        uri_without_scheme,
        "/ws/",
    ) {
        let mut b: usize = v.len();
        assert(v@.subrange(0, b as int) =~= v@);
        while b > 0 && v[b - 1] == '/'
            invariant
                v@ == uri_without_scheme@,
                b <= v.len(),
                trim_trailing_slashes(v@) == trim_trailing_slashes(v@.subrange(0, b as int)),
            decreases b,
        {
            assert(v@.subrange(0, b as int).drop_last() =~= v@.subrange(0, b - 1));
            b -= 1;
        }
        return string_of_range(&v, 0, b);
    }
    if v.len() > 0 && v[v.len() - 1] == '/' {
        return concat(uri_without_scheme, "ws");
    }
    if crate::text::has_char(uri_without_scheme, '/') {
        return owned(uri_without_scheme);
    }
    concat(uri_without_scheme, "/ws")
}

/// The websocket URI that `vm_service_websocket_uri` gives for a URI that
/// `normalize_vm_service_uri` accepts.
pub open spec fn websocket_uri(u: Seq<char>) -> Seq<char> {
    let n = normalized_uri(u);
    if is_prefix("ws://"@, n) || is_prefix("wss://"@, n) {
        n
    } else if is_prefix("http://"@, n) {
        "ws://"@ + ws_path(n.subrange(7, n.len() as int))
    } else {
        "wss://"@ + ws_path(n.subrange(8, n.len() as int))
    }
}

/// The websocket URI on which the VM service answers: `ws://` and `wss://`
/// URIs are kept, `http://` and `https://` ones become `ws://` and `wss://`
/// ones ending in the `/ws` endpoint, and a bare `host:port` is read as
/// `http://`. Fails as `normalize_vm_service_uri` does.
pub fn vm_service_websocket_uri(vm_service_uri: &str) -> (r: Result<String, String>)
    ensures
        r is Err <==> trim(vm_service_uri@).len() == 0,
        r matches Ok(u) ==> u@ == websocket_uri(vm_service_uri@),
        r matches Err(e) ==> e@ == uri_required_error(),
{
    let normalized = match normalize_vm_service_uri(vm_service_uri) {
        Ok(n) => n,
        Err(e) => return Err(e),
    };
    let ghost n = normalized@;
    if let Some(rest) = strip_prefix(normalized.as_str(), "ws://") {
        let r = concat("ws://", rest.as_str());
        assert(r@ =~= n);
        return Ok(r);
    }
    if let Some(rest) = strip_prefix(normalized.as_str(), "wss://") {
        let r = concat("wss://", rest.as_str());
        assert(r@ =~= n);
        return Ok(r);
    }
    proof {
        reveal_strlit("http://");
        reveal_strlit("https://");
        reveal_strlit("ws://");
        reveal_strlit("wss://");
    }
    if let Some(rest) = strip_prefix(normalized.as_str(), "http://") {
        let p = ensure_vm_service_ws_path(rest.as_str());
        return Ok(concat("ws://", p.as_str()));
    }
    if let Some(rest) = strip_prefix(normalized.as_str(), "https://") {
        let p = ensure_vm_service_ws_path(rest.as_str());
        return Ok(concat("wss://", p.as_str()));
    }
    proof {
        let t = trim(vm_service_uri@);
        if !has_vm_service_scheme(t) {
            assert(("http://"@ + t).subrange(0, 7) =~= "http://"@);
        }
    }
    let mut msg = owned("Unsupported VM service URI `");
    msg.append(normalized.as_str());
    msg.append("`. Expected ws://, wss://, http://, or https://");
    Err(msg)
}

/// The directory that holds the VM service info files of a worktree.
pub fn vm_service_info_dir(worktree_root: &str) -> (r: String)
    ensures
        r@ == join(worktree_root@, info_dir_rel()),
{
    join_path(worktree_root, ".zed/dart/vmservice-info")
}

/// What `resolve_vm_service_info_file_path` has to do for a launch.
#[derive(Debug)]
pub enum InfoFilePlan {
    /// Use the info file that the configuration names.
    Use(String),
    /// No info file: not a Flutter launch.
    NotNeeded,
    /// Create `directory` and a fresh, uniquely named info file in it.
    Generate { directory: String },
}

/// Decides where a launch's VM service info file comes from: the one the
/// configuration names; none when the launch is not a Flutter `launch`; else a
/// fresh one in the worktree's info directory.
pub fn plan_vm_service_info_file(
    worktree_root: &str,
    debug_mode: &str,
    request: &str,
    explicit_vm_service_info_file: Option<&str>,
) -> (r: InfoFilePlan)
    ensures
        explicit_vm_service_info_file matches Some(p) ==> (r matches InfoFilePlan::Use(q) && q@
            == p@),
        explicit_vm_service_info_file is None && (debug_mode@ != "flutter"@ || request@
            != "launch"@) ==> r is NotNeeded,
        explicit_vm_service_info_file is None && debug_mode@ == "flutter"@ && request@
            == "launch"@ ==> (r matches InfoFilePlan::Generate { directory } && directory@ == join(
            worktree_root@,
            info_dir_rel(),
        )),
{
    if let Some(path) = explicit_vm_service_info_file {
        return InfoFilePlan::Use(owned(path));
    }
    if !str_eq(debug_mode, "flutter") || !str_eq(request, "launch") {
        return InfoFilePlan::NotNeeded;
    }
    InfoFilePlan::Generate { directory: vm_service_info_dir(worktree_root) }
}

/// The name of a generated info file.
pub open spec fn generated_info_file_name(process_id: nat, timestamp_nanos: nat) -> Seq<char> {
    "flutter-vmservice-"@ + decimal(process_id) + "-"@ + decimal(timestamp_nanos) + ".json"@
}

/// The path of a fresh info file in `directory`, named after the process and
/// the launch time so that two launches get different files.
pub fn generated_vm_service_info_file(directory: &str, process_id: u32, timestamp_nanos: u128) -> (r:
    String)
    ensures
        r@ == join(directory@, generated_info_file_name(process_id as nat, timestamp_nanos as nat)),
{
    let mut name = owned("flutter-vmservice-");
    name.append(decimal_text(process_id as u128).as_str());
    name.append("-");
    name.append(decimal_text(timestamp_nanos).as_str());
    name.append(".json");
    join_path(directory, name.as_str())
}

/// The error for an info file without a URI.
pub open spec fn no_uri_field_error(path: Seq<char>) -> Seq<char> {
    "VM service info file `"@ + path + "` does not contain a supported URI field"@
}

/// The string fields of a VM service info file that can hold its URI, in the
/// order they are looked at: `uri`, `vmServiceUri`, `wsUri`, `ws_uri`.
#[derive(Debug)]
pub struct InfoFileFields {
    pub uri: Option<String>,
    pub vm_service_uri: Option<String>,
    pub ws_uri: Option<String>,
    pub ws_uri_snake: Option<String>,
}

/// The first URI field an info file holds.
pub open spec fn first_uri_field(f: InfoFileFields) -> Option<Seq<char>> {
    if f.uri is Some {
        Some(f.uri.unwrap()@)
    } else if f.vm_service_uri is Some {
        Some(f.vm_service_uri.unwrap()@)
    } else if f.ws_uri is Some {
        Some(f.ws_uri.unwrap()@)
    } else if f.ws_uri_snake is Some {
        Some(f.ws_uri_snake.unwrap()@)
    } else {
        None
    }
}

/// The VM service URI an info file records: its first URI field, normalized.
/// Fails when it holds none, or when that field is blank.
pub fn vm_service_uri_from_info_fields(path: &str, fields: &InfoFileFields) -> (r: Result<
    String,
    String,
>)
    ensures
        first_uri_field(*fields) is None ==> (r matches Err(e) && e@ == no_uri_field_error(path@)),
        first_uri_field(*fields) matches Some(u) ==> (r is Err <==> trim(u).len() == 0),
        first_uri_field(*fields) matches Some(u) ==> (r matches Ok(v) ==> v@ == normalized_uri(u)),
        first_uri_field(*fields) matches Some(u) ==> (r matches Err(e) ==> e@
            == uri_required_error()),
{
    if let Some(u) = &fields.uri {
        return normalize_vm_service_uri(u.as_str());
    }
    if let Some(u) = &fields.vm_service_uri {
        return normalize_vm_service_uri(u.as_str());
    }
    if let Some(u) = &fields.ws_uri {
        return normalize_vm_service_uri(u.as_str());
    }
    if let Some(u) = &fields.ws_uri_snake {
        return normalize_vm_service_uri(u.as_str());
    }
    let mut msg = owned("VM service info file `");
    msg.append(path);
    msg.append("` does not contain a supported URI field");
    Err(msg)
}

/// The first URI field among the members `ms` of an info file: `uri`,
/// `vmServiceUri`, `wsUri`, then `ws_uri`, each when it is a string.
pub open spec fn first_uri_member(ms: Seq<(Seq<char>, Seq<char>)>) -> Option<Seq<char>> {
    if member_str(ms, "uri"@) is Some {
        member_str(ms, "uri"@)
    } else if member_str(ms, "vmServiceUri"@) is Some {
        member_str(ms, "vmServiceUri"@)
    } else if member_str(ms, "wsUri"@) is Some {
        member_str(ms, "wsUri"@)
    } else {
        member_str(ms, "ws_uri"@)
    }
}

/// The error for an info file that is not JSON.
pub open spec fn invalid_info_json_error(path: Seq<char>, e: Seq<char>) -> Seq<char> {
    "Invalid VM service info JSON in `"@ + path + "`: "@ + e
}

/// `r` is what `vm_service_uri_from_info_text` gives for the info file at
/// `path` whose text is `contents`: an error when the text is not JSON (see
/// `parsed_json`); else its first URI field normalized, failing when it has
/// none or when that field is blank.
pub open spec fn info_text_outcome(r: Result<String, String>, path: Seq<char>, contents: Seq<char>) -> bool {
    match parsed_json(contents) {
        Err(e) => r matches Err(m) && m@ == invalid_info_json_error(path, e@),
        Ok(_) => match first_uri_member(json_members(contents)) {
            None => r matches Err(m) && m@ == no_uri_field_error(path),
            Some(u) => if trim(u).len() == 0 {
                r matches Err(m) && m@ == uri_required_error()
            } else {
                r matches Ok(v) && v@ == normalized_uri(u)
            },
        },
    }
}

/// The VM service URI that the info file at `path`, whose text is
/// `contents`, records (see `info_text_outcome`).
pub fn vm_service_uri_from_info_text(path: &str, contents: &str) -> (r: Result<String, String>)
    ensures
        info_text_outcome(r, path@, contents@),
{
    match parse_json_text(contents) {
        Err(e) => {
            let mut m = owned("Invalid VM service info JSON in `");
            m.append(path);
            m.append("`: ");
            m.append(e.as_str());
            Err(m)
        },
        Ok(_) => {
            let ms = members_of(contents);
            let fields = InfoFileFields {
                uri: str_member(&ms, "uri"),
                vm_service_uri: str_member(&ms, "vmServiceUri"),
                ws_uri: str_member(&ms, "wsUri"),
                ws_uri_snake: str_member(&ms, "ws_uri"),
            };
            let r = vm_service_uri_from_info_fields(path, &fields);
            assert(first_uri_field(fields) == first_uri_member(json_members(contents@)));
            r
        },
    }
}

/// A file in the info directory, by name, with its modification time in
/// nanoseconds since the Unix epoch (0 when it could not be read).
#[derive(Debug)]
pub struct InfoDirEntry {
    pub name: String,
    pub modified_nanos: u128,
}

/// The entry is a JSON info file.
pub open spec fn is_json_entry(directory: Seq<char>, e: InfoDirEntry) -> bool {
    extension(join(directory, e.name@)) == Some("json"@)
}

/// The error when the info directory holds no JSON file.
pub open spec fn no_info_files_error(directory: Seq<char>) -> Seq<char> {
    "No VM service info files found in `"@ + directory
        + "`. Start a Flutter debug launch first or provide a VM service URI."@
}

/// `i` is the entry `select_latest_vm_service_info_file` picks: a JSON file
/// modified no earlier than any other JSON file, and the last in listing order
/// among those modified at that time.
pub open spec fn is_latest_entry(directory: Seq<char>, es: Seq<InfoDirEntry>, i: int) -> bool {
    &&& 0 <= i < es.len()
    &&& is_json_entry(directory, es[i])
    &&& forall|k: int|
        0 <= k < es.len() && is_json_entry(directory, es[k]) ==> es[k].modified_nanos
            <= es[i].modified_nanos
    &&& forall|k: int|
        i < k < es.len() && is_json_entry(directory, es[k]) ==> es[k].modified_nanos
            < es[i].modified_nanos
}

/// Picks the most recently modified JSON info file of the info directory and
/// gives its path. Fails when the directory holds no JSON file.
pub fn select_latest_vm_service_info_file(directory: &str, entries: &Vec<InfoDirEntry>) -> (r:
    Result<String, String>)
    ensures
        r is Err <==> forall|k: int| 0 <= k < entries@.len() ==> !is_json_entry(directory@, entries@[k]),
        r matches Err(e) ==> e@ == no_info_files_error(directory@),
        r matches Ok(p) ==> exists|i: int|
            is_latest_entry(directory@, entries@, i) && p@ == join(directory@, entries@[i].name@),
{
    let mut found = false;
    let mut best: usize = 0;
    let mut i: usize = 0;
    while i < entries.len()
        invariant
            i <= entries.len(),
            found ==> best < i,
            found ==> is_json_entry(directory@, entries@[best as int]),
            found ==> forall|k: int|
                0 <= k < i && is_json_entry(directory@, entries@[k]) ==> entries@[k].modified_nanos
                    <= entries@[best as int].modified_nanos,
            found ==> forall|k: int|
                best < k < i && is_json_entry(directory@, entries@[k]) ==> entries@[k].modified_nanos
                    < entries@[best as int].modified_nanos,
            !found ==> forall|k: int| 0 <= k < i ==> !is_json_entry(directory@, entries@[k]),
        decreases entries.len() - i,
    {
        let path = join_path(directory, entries[i].name.as_str());
        let is_json = match extension_of(path.as_str()) {
            Some(ext) => str_eq(ext.as_str(), "json"),
            None => false,
        };
        if is_json && (!found || entries[i].modified_nanos >= entries[best].modified_nanos) {
            found = true;
            best = i;
        }
        i += 1;
    }
    if !found {
        let mut msg = owned("No VM service info files found in `");
        msg.append(directory);
        msg.append("`. Start a Flutter debug launch first or provide a VM service URI.");
        return Err(msg);
    }
    assert(is_latest_entry(directory@, entries@, best as int));
    Ok(join_path(directory, entries[best].name.as_str()))
}

/// Text that neither starts nor ends with whitespace is its own trim.
proof fn lemma_trim_of_bordered(s: Seq<char>)
    requires
        s.len() > 0,
        !is_whitespace(s[0]),
        !is_whitespace(s.last()),
    ensures
        trim(s) == s,
{
    assert(trim_start(s) == s);
}

/// Normalizing a VM service URI twice gives what normalizing it once gives.
pub proof fn law_normalize_idempotent(u: Seq<char>)
    requires
        trim(u).len() > 0,
    ensures
        trim(normalized_uri(u)).len() > 0,
        trim(normalized_uri(u)) == normalized_uri(u),
        has_vm_service_scheme(normalized_uri(u)),
        normalized_uri(normalized_uri(u)) == normalized_uri(u),
{
    let t = trim(u);
    lemma_trim_bounds(u);
    reveal_strlit("http://");
    if has_vm_service_scheme(t) {
        assert(normalized_uri(u) == t);
    } else {
        let n = "http://"@ + t;
        assert(n[0] == 'h');
        assert(n.last() == t.last());
        lemma_trim_of_bordered(n);
        assert(n.subrange(0, 7) =~= "http://"@);
        assert(has_vm_service_scheme(n));
    }
}

/// `trim_trailing_slashes` leaves a prefix that does not end in `/`, and
/// keeps text that does not end in `/`.
proof fn lemma_trim_trailing_slashes(s: Seq<char>)
    ensures
        trim_trailing_slashes(s).len() <= s.len(),
        trim_trailing_slashes(s) =~= s.subrange(0, trim_trailing_slashes(s).len() as int),
        trim_trailing_slashes(s).len() > 0 ==> trim_trailing_slashes(s).last() != '/',
        forall|k: int|
            trim_trailing_slashes(s).len() <= k < s.len() ==> s[k] == '/',
    decreases s.len(),
{
    if s.len() > 0 && s.last() == '/' {
        lemma_trim_trailing_slashes(s.drop_last());
        let t = trim_trailing_slashes(s.drop_last());
        assert(s.drop_last().subrange(0, t.len() as int) =~= s.subrange(0, t.len() as int));
        assert forall|k: int| t.len() <= k < s.len() implies s[k] == '/' by {
            if k < s.len() - 1 {
                assert(s.drop_last()[k] == s[k]);
            }
        }
    } else {
        assert(s.subrange(0, s.len() as int) =~= s);
    }
}

/// Text ending in `/ws` is left alone by `ws_path`.
proof fn lemma_ws_path_of_ws_suffix(u: Seq<char>)
    requires
        is_suffix("/ws"@, u),
    ensures
        ws_path(u) == u,
{
    reveal_strlit("/ws");
    assert(u.subrange(u.len() - 3, u.len() as int)[2] == u.last());
    assert(trim_trailing_slashes(u) == u);
}

/// Giving a URI the `/ws` endpoint twice gives what giving it once gives.
pub proof fn law_ws_path_idempotent(u: Seq<char>)
    ensures
        ws_path(ws_path(u)) == ws_path(u),
{
    reveal_strlit("/ws");
    reveal_strlit("/ws/");
    reveal_strlit("ws");
    if is_suffix("/ws"@, u) || is_suffix("/ws/"@, u) {
        let r = trim_trailing_slashes(u);
        lemma_trim_trailing_slashes(u);
        if is_suffix("/ws"@, u) {
            assert(u.subrange(u.len() - 3, u.len() as int)[2] == u.last());
            assert(r == u);
        } else {
            let base = u.subrange(0, u.len() - 1);
            assert(u.subrange(u.len() - 4, u.len() as int)[3] == u.last());
            assert(u.subrange(u.len() - 4, u.len() as int)[2] == base.last());
            assert(u.drop_last() =~= base);
            assert(trim_trailing_slashes(base) == base);
            assert(r == base);
            let w = u.subrange(u.len() - 4, u.len() as int);
            assert(w == "/ws/"@);
            assert forall|k: int| 0 <= k < 3 implies #[trigger] base.subrange(
                base.len() - 3,
                base.len() as int,
            )[k] == "/ws"@[k] by {
                assert(base.subrange(base.len() - 3, base.len() as int)[k] == w[k]);
            }
            assert(base.subrange(base.len() - 3, base.len() as int) =~= "/ws"@);
            assert(is_suffix("/ws"@, base));
        }
        lemma_ws_path_of_ws_suffix(r);
    } else if u.len() > 0 && u.last() == '/' {
        let r = u + "ws"@;
        assert(r.subrange(r.len() - 3, r.len() as int) =~= "/ws"@);
        lemma_ws_path_of_ws_suffix(r);
    } else if u.contains('/') {
    } else {
        let r = u + "/ws"@;
        assert(r.subrange(r.len() - 3, r.len() as int) =~= "/ws"@);
        lemma_ws_path_of_ws_suffix(r);
    }
}

/// A number's decimal digits name it alone.
pub proof fn lemma_decimal_injective(m: nat, n: nat)
    requires
        decimal(m) == decimal(n),
    ensures
        m == n,
    decreases m,
{
    if m < 10 && n < 10 {
        assert(decimal(m)[0] == decimal(n)[0]);
        assert(decimal(m)[0] as int == ('0' as int) + m);
        assert(decimal(n)[0] as int == ('0' as int) + n);
    } else if m >= 10 && n >= 10 {
        let dm = decimal(m);
        let dn = decimal(n);
        assert(dm.drop_last() =~= decimal(m / 10));
        assert(dn.drop_last() =~= decimal(n / 10));
        lemma_decimal_injective(m / 10, n / 10);
        assert(dm.last() == dn.last());
        assert(dm.last() as int == ('0' as int) + m % 10);
        assert(dn.last() as int == ('0' as int) + n % 10);
        assert(m == 10 * (m / 10) + m % 10);
        assert(n == 10 * (n / 10) + n % 10);
    } else {
        lemma_decimal_len(m / 10);
        lemma_decimal_len(n / 10);
        if m < 10 {
            assert(decimal(m).len() == 1);
            assert(decimal(n).len() == decimal(n / 10).len() + 1);
        } else {
            assert(decimal(n).len() == 1);
            assert(decimal(m).len() == decimal(m / 10).len() + 1);
        }
        assert(decimal(m).len() != decimal(n).len());
    }
}

/// Every decimal numeral has a digit.
pub proof fn lemma_decimal_len(n: nat)
    ensures
        decimal(n).len() >= 1,
    decreases n,
{
    if n >= 10 {
        lemma_decimal_len(n / 10);
    }
}

/// The digits of a decimal numeral are `0` to `9`.
pub proof fn lemma_decimal_digits(n: nat)
    ensures
        forall|i: int| 0 <= i < decimal(n).len() ==> '0' <= #[trigger] decimal(n)[i] <= '9',
    decreases n,
{
    if n >= 10 {
        lemma_decimal_digits(n / 10);
        let d = decimal(n);
        assert forall|i: int| 0 <= i < d.len() implies '0' <= #[trigger] d[i] <= '9' by {
            if i < d.len() - 1 {
                assert(d[i] == decimal(n / 10)[i]);
            }
        }
    }
}

/// A generated info file name gives back the process id and the time it was
/// made with.
proof fn lemma_info_file_name_injective(p1: nat, t1: nat, p2: nat, t2: nat)
    requires
        generated_info_file_name(p1, t1) == generated_info_file_name(p2, t2),
    ensures
        p1 == p2,
        t1 == t2,
{
    reveal_strlit("flutter-vmservice-");
    reveal_strlit("-");
    reveal_strlit(".json");
    let a = generated_info_file_name(p1, t1);
    let b = generated_info_file_name(p2, t2);
    let da = decimal(p1);
    let db = decimal(p2);
    lemma_decimal_digits(p1);
    lemma_decimal_digits(p2);
    let ra = da + "-"@ + decimal(t1) + ".json"@;
    let rb = db + "-"@ + decimal(t2) + ".json"@;
    assert(a =~= "flutter-vmservice-"@ + ra);
    assert(b =~= "flutter-vmservice-"@ + rb);
    assert(ra =~= a.subrange(18, a.len() as int));
    assert(rb =~= b.subrange(18, b.len() as int));
    assert(ra == rb);
    if da.len() < db.len() {
        assert(ra[da.len() as int] == '-');
        assert(rb[da.len() as int] == db[da.len() as int]);
    } else if db.len() < da.len() {
        assert(rb[db.len() as int] == '-');
        assert(ra[db.len() as int] == da[db.len() as int]);
    }
    assert(da =~= ra.subrange(0, da.len() as int));
    assert(db =~= rb.subrange(0, db.len() as int));
    lemma_decimal_injective(p1, p2);
    let ta = decimal(t1) + ".json"@;
    let tb = decimal(t2) + ".json"@;
    assert(ta =~= ra.subrange(da.len() + 1int, ra.len() as int));
    assert(tb =~= rb.subrange(db.len() + 1int, rb.len() as int));
    assert(decimal(t1) =~= ta.subrange(0, ta.len() - 5));
    assert(decimal(t2) =~= tb.subrange(0, tb.len() - 5));
    lemma_decimal_injective(t1, t2);
}

/// Law: launches by different processes, or at different times, get
/// different info files.
pub proof fn law_generated_info_files_distinct(
    directory: Seq<char>,
    first_process_id: nat,
    first_nanos: nat,
    second_process_id: nat,
    second_nanos: nat,
)
    requires
        first_process_id != second_process_id || first_nanos != second_nanos,
    ensures
        join(directory, generated_info_file_name(first_process_id, first_nanos)) != join(
            directory,
            generated_info_file_name(second_process_id, second_nanos),
        ),
{
    let a = generated_info_file_name(first_process_id, first_nanos);
    let b = generated_info_file_name(second_process_id, second_nanos);
    reveal_strlit("flutter-vmservice-");
    if join(directory, a) == join(directory, b) {
        assert(a[0] == 'f' && b[0] == 'f');
        assert(!is_absolute(a) && !is_absolute(b));
        let sep = if directory.len() == 0 || directory.last() == '/' {
            Seq::<char>::empty()
        } else {
            seq!['/']
        };
        assert(join(directory, a) =~= (directory + sep) + a);
        assert(join(directory, b) =~= (directory + sep) + b);
        let pre = directory + sep;
        assert(a =~= join(directory, a).subrange(pre.len() as int, join(directory, a).len() as int));
        assert(b =~= join(directory, b).subrange(pre.len() as int, join(directory, b).len() as int));
        lemma_info_file_name_injective(first_process_id, first_nanos, second_process_id, second_nanos);
    }
}

/// At most one entry is the one `select_latest_vm_service_info_file` picks.
pub proof fn law_latest_entry_unique(directory: Seq<char>, es: Seq<InfoDirEntry>, i: int, j: int)
    requires
        is_latest_entry(directory, es, i),
        is_latest_entry(directory, es, j),
    ensures
        i == j,
{
    if i < j {
        assert(es[j].modified_nanos < es[i].modified_nanos);
        assert(es[j].modified_nanos >= es[i].modified_nanos);
    } else if j < i {
        assert(es[i].modified_nanos < es[j].modified_nanos);
        assert(es[i].modified_nanos >= es[j].modified_nanos);
    }
}

/// `ws_path` ends in a character other than whitespace when its argument
/// does (or is empty).
proof fn lemma_ws_path_ends(x: Seq<char>)
    requires
        x.len() == 0 || !is_whitespace(x.last()),
    ensures
        ws_path(x).len() > 0,
        !is_whitespace(ws_path(x).last()),
{
    reveal_strlit("/ws");
    reveal_strlit("/ws/");
    reveal_strlit("ws");
    if is_suffix("/ws"@, x) {
        lemma_ws_path_of_ws_suffix(x);
        assert(x.subrange(x.len() - 3, x.len() as int)[2] == x.last());
    } else if is_suffix("/ws/"@, x) {
        law_ws_path_idempotent(x);
        lemma_trim_trailing_slashes(x);
        let base = x.subrange(0, x.len() - 1);
        assert(x.subrange(x.len() - 4, x.len() as int)[3] == x.last());
        assert(x.subrange(x.len() - 4, x.len() as int)[2] == base.last());
        assert(x.drop_last() =~= base);
        assert(trim_trailing_slashes(base) == base);
        assert(ws_path(x) == base);
    } else if x.len() > 0 && x.last() == '/' {
        assert((x + "ws"@).last() == 's');
    } else if x.contains('/') {
    } else {
        assert((x + "/ws"@).last() == 's');
    }
}

/// Law: the websocket URI of a websocket URI is that URI itself, so asking
/// twice gives one answer.
pub proof fn law_websocket_uri_idempotent(u: Seq<char>)
    requires
        trim(u).len() > 0,
    ensures
        is_prefix("ws://"@, websocket_uri(u)) || is_prefix("wss://"@, websocket_uri(u)),
        trim(websocket_uri(u)).len() > 0,
        websocket_uri(websocket_uri(u)) == websocket_uri(u),
{
    reveal_strlit("ws://");
    reveal_strlit("wss://");
    reveal_strlit("http://");
    reveal_strlit("https://");
    law_normalize_idempotent(u);
    let n = normalized_uri(u);
    lemma_trim_bounds(n);
    let w = websocket_uri(u);
    if is_prefix("ws://"@, n) || is_prefix("wss://"@, n) {
        assert(w == n);
    } else {
        let k: int = if is_prefix("http://"@, n) { 7 } else { 8 };
        let x = n.subrange(k, n.len() as int);
        if x.len() > 0 {
            assert(x.last() == n.last());
        }
        lemma_ws_path_ends(x);
        let scheme = if k == 7 { "ws://"@ } else { "wss://"@ };
        assert(w == scheme + ws_path(x));
        assert(w.last() == ws_path(x).last());
        assert(w[0] == 'w');
        lemma_trim_of_bordered(w);
        assert(w.subrange(0, scheme.len() as int) =~= scheme);
    }
    assert(trim(w) == w);
    assert(has_vm_service_scheme(w));
    assert(normalized_uri(w) == w);
}

} // verus!
