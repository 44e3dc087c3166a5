//! The slash commands' logic: DevTools URLs, the hot reload / hot restart
//! shell shim, resolving the VM service a hot command targets, routing the
//! `/flutter` commands and completing their arguments.

use vstd::prelude::*;
use vstd::utf8::encode_utf8;
use crate::output::{
    command_failure_message, failure_message, is_single_section, single_section_output,
    OutputSection, SlashOutput,
};
use crate::paths::{extension, extension_of, is_absolute, is_absolute_path, join, join_path};
use crate::text::{
    concat, contains_seq, has_char, is_prefix, occurs_at, join_strings, join_seq, lowercase, owned, push_char,
    replace_char, replace_char_str, str_eq, to_lowercase, trim, trim_str,
};
use crate::vmservice::{
    has_vm_service_scheme, info_text_outcome, normalize_vm_service_uri, normalized_uri,
    starts_with_scheme, uri_required_error, vm_service_uri_from_info_text,
};

verus! {

/// The byte is one `percent_encode_uri_component` keeps as it is: an ASCII
/// letter or digit, `-`, `_`, `.` or `~`.
pub open spec fn is_unreserved(b: u8) -> bool {
    ||| 48 <= b <= 57
    ||| 65 <= b <= 90
    ||| 97 <= b <= 122
    ||| b == 45
    ||| b == 95
    ||| b == 46
    ||| b == 126
}

/// The uppercase hexadecimal digit for `n` (0 to 15).
pub open spec fn hex_upper(n: int) -> char {
    if n < 10 {
        (('0' as int) + n) as char
    } else {
        (('A' as int) + n - 10) as char
    }
}

/// How one byte is written: itself when unreserved, else `%XX`.
pub open spec fn percent_byte(b: u8) -> Seq<char> {
    if is_unreserved(b) {
        seq![b as char]
    } else {
        seq!['%', hex_upper((b / 16) as int), hex_upper((b % 16) as int)]
    }
}

/// The percent-encoding of bytes.
pub open spec fn percent_encode(bs: Seq<u8>) -> Seq<char>
    decreases bs.len(),
{
    if bs.len() == 0 {
        Seq::empty()
    } else {
        percent_byte(bs[0]) + percent_encode(bs.drop_first())
    }
}

/// The value of an uppercase hexadecimal digit.
pub open spec fn hex_upper_value(c: char) -> int {
    if '0' <= c <= '9' {
        (c as int) - ('0' as int)
    } else {
        (c as int) - ('A' as int) + 10
    }
}

/// Reads back percent-encoded text.
pub open spec fn percent_decode(t: Seq<char>) -> Seq<u8>
    decreases t.len(),
{
    if t.len() == 0 {
        Seq::empty()
    } else if t[0] == '%' && t.len() >= 3 {
        seq![(16 * hex_upper_value(t[1]) + hex_upper_value(t[2])) as u8] + percent_decode(
            t.subrange(3, t.len() as int),
        )
    } else {
        seq![t[0] as u8] + percent_decode(t.drop_first())
    }
}

/// Encoding with one more byte at the end.
pub proof fn lemma_percent_encode_push(bs: Seq<u8>, b: u8)
    ensures
        percent_encode(bs.push(b)) == percent_encode(bs) + percent_byte(b),
    decreases bs.len(),
{
    if bs.len() == 0 {
        assert(bs.push(b).drop_first() =~= Seq::<u8>::empty());
        assert(bs.push(b)[0] == b);
        assert(percent_encode(Seq::<u8>::empty()) =~= Seq::<char>::empty());
        assert(percent_encode(bs.push(b)) =~= percent_byte(b) + percent_encode(Seq::<u8>::empty()));
        assert(percent_encode(bs.push(b)) =~= percent_encode(bs) + percent_byte(b));
    } else {
        lemma_percent_encode_push(bs.drop_first(), b);
        assert(bs.push(b).drop_first() =~= bs.drop_first().push(b));
        assert(bs.push(b)[0] == bs[0]);
    }
}

/// Law: reading back the percent-encoding of bytes gives the bytes, so
/// different URIs give different DevTools URLs.
pub proof fn law_percent_decode_encode(bs: Seq<u8>)
    ensures
        percent_decode(percent_encode(bs)) == bs,
    decreases bs.len(),
{
    if bs.len() > 0 {
        law_percent_decode_encode(bs.drop_first());
        let b = bs[0];
        let rest = percent_encode(bs.drop_first());
        let t = percent_byte(b) + rest;
        if is_unreserved(b) {
            assert(t.drop_first() =~= rest);
            assert(t[0] == b as char);
            assert((b as char) as u8 == b);
        } else {
            assert(t.subrange(3, t.len() as int) =~= rest);
            assert(hex_upper_value(hex_upper((b / 16) as int)) == b / 16);
            assert(hex_upper_value(hex_upper((b % 16) as int)) == b % 16);
        }
        assert(seq![b] + bs.drop_first() =~= bs);
    }
}

/// Law: percent-encoded text holds only unreserved characters and `%`.
pub proof fn law_percent_encode_charset(bs: Seq<u8>)
    ensures
        forall|i: int|
            0 <= i < percent_encode(bs).len() ==> {
                let c = #[trigger] percent_encode(bs)[i];
                c == '%' || ('0' <= c <= '9') || ('A' <= c <= 'Z') || ('a' <= c <= 'z') || c == '-'
                    || c == '_' || c == '.' || c == '~'
            },
    decreases bs.len(),
{
    if bs.len() > 0 {
        law_percent_encode_charset(bs.drop_first());
        let p = percent_byte(bs[0]);
        let rest = percent_encode(bs.drop_first());
        assert forall|i: int| 0 <= i < percent_encode(bs).len() implies {
            let c = #[trigger] percent_encode(bs)[i];
            c == '%' || ('0' <= c <= '9') || ('A' <= c <= 'Z') || ('a' <= c <= 'z') || c == '-' || c
                == '_' || c == '.' || c == '~'
        } by {
            if i >= p.len() {
                assert(percent_encode(bs)[i] == rest[i - p.len()]);
            }
        }
    }
}

/// The uppercase hexadecimal digit for `n` (below 16).
fn hex_upper_exec(n: u8) -> (c: char)
    requires
        n < 16,
    ensures
        c == hex_upper(n as int),
{
    if n < 10 {
        (48u8 + n) as char
    } else {
        (55u8 + n) as char
    }
}

/// Percent-encodes the UTF-8 bytes of `value` for use in a URI component: ASCII
/// letters, digits, `-`, `_`, `.` and `~` are kept, every other byte becomes
/// `%XX` with uppercase hexadecimal digits.
pub fn percent_encode_uri_component(value: &str) -> (r: String)
    ensures
        r@ == percent_encode(encode_utf8(value@)),
{
    let bytes = value.as_bytes();
    let ghost bs = encode_utf8(value@);
    let mut encoded = String::new();
    let mut i: usize = 0;
    while i < bytes.len()
        invariant
            bytes@ == bs,
            i <= bytes.len(),
            encoded@ == percent_encode(bs.subrange(0, i as int)),
        decreases bytes.len() - i,
    {
        let b = bytes[i];
        let ghost before = encoded@;
        if (48 <= b && b <= 57) || (65 <= b && b <= 90) || (97 <= b && b <= 122) || b == 45 || b
            == 95 || b == 46 || b == 126 {
            push_char(&mut encoded, b as char);
        } else {
            push_char(&mut encoded, '%');
            push_char(&mut encoded, hex_upper_exec(b / 16));
            push_char(&mut encoded, hex_upper_exec(b % 16));
        }
        proof {
            assert(encoded@ =~= before + percent_byte(b));
            lemma_percent_encode_push(bs.subrange(0, i as int), b);
            assert(bs.subrange(0, i as int).push(b) =~= bs.subrange(0, i + 1));
        }
        i += 1;
    }
    assert(bs.subrange(0, bytes.len() as int) =~= bs);
    encoded
}

/// The DevTools URL for a VM service URI: the local DevTools server at
/// `http://127.0.0.1:9100` with the normalized URI as its `uri` parameter.
pub open spec fn devtools_url(u: Seq<char>) -> Seq<char> {
    "http://127.0.0.1:9100?uri="@ + percent_encode(encode_utf8(normalized_uri(u)))
}

/// Law: the `uri` parameter of a DevTools URL decodes to the UTF-8 bytes of
/// the normalized VM service URI, so DevTools connects to the service given.
pub proof fn law_devtools_url_carries_uri(u: Seq<char>)
    ensures
        devtools_url(u).len() >= 26,
        devtools_url(u).subrange(0, 26) == "http://127.0.0.1:9100?uri="@,
        percent_decode(devtools_url(u).subrange(26, devtools_url(u).len() as int)) == encode_utf8(
            normalized_uri(u),
        ),
{
    reveal_strlit("http://127.0.0.1:9100?uri=");
    let bytes = encode_utf8(normalized_uri(u));
    let url = devtools_url(u);
    assert(url.subrange(0, 26) =~= "http://127.0.0.1:9100?uri="@);
    assert(url.subrange(26, url.len() as int) =~= percent_encode(bytes));
    law_percent_decode_encode(bytes);
}

/// The DevTools URL for a VM service URI (see `devtools_url`); the URI is
/// trimmed and read as `http://` when it names no scheme. Fails when it is
/// blank.
pub fn build_devtools_url(vm_service_uri: &str) -> (r: Result<String, String>)
    ensures
        r is Err <==> trim(vm_service_uri@).len() == 0,
        r matches Ok(u) ==> u@ == devtools_url(vm_service_uri@),
        r matches Err(e) ==> e@ == uri_required_error(),
{
    let normalized = match normalize_vm_service_uri(vm_service_uri) {
        Ok(n) => n,
        Err(e) => return Err(e),
    };
    let encoded = percent_encode_uri_component(normalized.as_str());
    Ok(concat("http://127.0.0.1:9100?uri=", encoded.as_str()))
}

/// A PowerShell single-quoted literal holding `s`.
pub open spec fn ps_quote(s: Seq<char>) -> Seq<char> {
    "'"@ + replace_char(s, '\'', "''"@) + "'"@
}

/// Quotes a value as a PowerShell single-quoted literal: in quotes, with each
/// quote doubled.
pub fn quote_powershell_literal(value: &str) -> (r: String)
    ensures
        r@ == ps_quote(value@),
{
    let body = replace_char_str(value, '\'', "''");
    let mut r = owned("'");
    r.append(body.as_str());
    r.append("'");
    r
}

/// Reads back the body of a PowerShell single-quoted literal: a doubled quote
/// stands for one quote.
pub open spec fn ps_unquote_body(t: Seq<char>) -> Seq<char>
    decreases t.len(),
{
    if t.len() == 0 {
        Seq::empty()
    } else if t[0] == '\'' && t.len() >= 2 && t[1] == '\'' {
        seq!['\''] + ps_unquote_body(t.subrange(2, t.len() as int))
    } else {
        seq![t[0]] + ps_unquote_body(t.drop_first())
    }
}

/// Law: the quoted literal reads back as the value it quotes, so quoting
/// cannot change which value PowerShell sees.
pub proof fn law_ps_quote_roundtrip(s: Seq<char>)
    ensures
        ps_quote(s).len() >= 2,
        ps_quote(s)[0] == '\'',
        ps_quote(s).last() == '\'',
        ps_unquote_body(ps_quote(s).subrange(1, ps_quote(s).len() - 1)) == s,
    decreases s.len(),
{
    reveal_strlit("'");
    reveal_strlit("''");
    let q = ps_quote(s);
    let body = replace_char(s, '\'', "''"@);
    assert(q.subrange(1, q.len() - 1) =~= body);
    lemma_unquote_replace(s);
}

/// Reading back the doubled-quote body of `s` gives `s`.
proof fn lemma_unquote_replace(s: Seq<char>)
    ensures
        ps_unquote_body(replace_char(s, '\'', "''"@)) == s,
    decreases s.len(),
{
    reveal_strlit("''");
    if s.len() > 0 {
        lemma_unquote_replace(s.drop_first());
        let rest = replace_char(s.drop_first(), '\'', "''"@);
        let t = replace_char(s, '\'', "''"@);
        if s[0] == '\'' {
            assert(t =~= seq!['\'', '\''] + rest);
            assert(t.subrange(2, t.len() as int) =~= rest);
        } else {
            assert(t =~= seq![s[0]] + rest);
            assert(t.drop_first() =~= rest);
        }
        assert(seq![s[0]] + s.drop_first() =~= s);
    }
}

/// The PowerShell script that runs `flutter attach` against a VM service,
/// waits until it is ready, sends the action key and `q`, and reports the
/// outcome; `flutter_q`, `root_q` and `uri_q` are the quoted tool path,
/// project root and VM service URI.
pub open spec fn attach_script(
    flutter_q: Seq<char>,
    root_q: Seq<char>,
    uri_q: Seq<char>,
    action_key: char,
    action_label: Seq<char>,
) -> Seq<char> {
    "$psi = New-Object System.Diagnostics.ProcessStartInfo;$psi.FileName = "@
        + flutter_q
        + ";$psi.Arguments = 'attach --debug-uri ' + "@
        + uri_q
        + " + ' --project-root ' + "@
        + root_q
        + " + ' --report-ready';$psi.WorkingDirectory = "@
        + root_q
        + ";$psi.UseShellExecute = $false;$psi.RedirectStandardInput = $true;$psi.RedirectStandardOutput = $true;$psi.RedirectStandardError = $true;$p = New-Object System.Diagnostics.Process;$p.StartInfo = $psi;$stdout = New-Object System.Text.StringBuilder;$stderr = New-Object System.Text.StringBuilder;$ready = New-Object System.Threading.ManualResetEventSlim($false);$stderrReady = New-Object System.Threading.ManualResetEventSlim($false);$handler = [System.Diagnostics.DataReceivedEventHandler]{ param($sender, $eventArgs) if ($null -ne $eventArgs.Data) {  [void]$stdout.AppendLine($eventArgs.Data);  if ($eventArgs.Data -match 'Flutter run key commands|The Flutter DevTools debugger and profiler|ready|A Dart VM Service') { $ready.Set() } }};$errorHandler = [System.Diagnostics.DataReceivedEventHandler]{ param($sender, $eventArgs) if ($null -ne $eventArgs.Data) {  [void]$stderr.AppendLine($eventArgs.Data);  if ($eventArgs.Data -match 'Flutter run key commands|The Flutter DevTools debugger and profiler|ready|A Dart VM Service') { $stderrReady.Set() } }};$p.add_OutputDataReceived($handler);$p.add_ErrorDataReceived($errorHandler);if (-not $p.Start()) { throw 'Failed to start flutter attach.' };$p.BeginOutputReadLine();$p.BeginErrorReadLine();if (-not ($ready.Wait(20000) -or $stderrReady.Wait(20000))) { try { if (-not $p.HasExited) { $p.Kill() } } catch {}; throw 'Timed out waiting for flutter attach to become ready.'};$p.StandardInput.WriteLine('"@
        + seq![action_key]
        + "');$p.StandardInput.WriteLine('q');$p.StandardInput.Flush();if (-not $p.WaitForExit(30000)) { try { $p.Kill() } catch {}; throw 'Timed out waiting for flutter attach to exit after "@
        + action_label
        + ".'};$combined = (($stdout.ToString() + \"`n\" + $stderr.ToString()).Trim());if ($p.ExitCode -ne 0 -and $combined -notmatch 'ready|Reloaded|Restarted|performing hot reload|performing hot restart') { throw ('flutter attach exited with code ' + $p.ExitCode + ': ' + $combined)};Write-Output ('Flutter "@
        + action_label
        + " requested via shell attach shim.' + [Environment]::NewLine + $combined.Trim())"@
}

/// Law: the attach script writes the action key and then `q` to `flutter
/// attach`'s standard input, one right after the other, before it waits for
/// the process to exit; so `flutter attach` performs the action and detaches.
pub proof fn law_attach_script_sends_key_then_quit(
    flutter_q: Seq<char>,
    root_q: Seq<char>,
    uri_q: Seq<char>,
    action_key: char,
    action_label: Seq<char>,
)
    ensures
        exists|i: int, j: int|
            occurs_at(
                attach_script(flutter_q, root_q, uri_q, action_key, action_label),
                "$p.StandardInput.WriteLine('"@ + seq![action_key]
                    + "');$p.StandardInput.WriteLine('q');"@,
                i,
            ) && occurs_at(
                attach_script(flutter_q, root_q, uri_q, action_key, action_label),
                "WaitForExit("@,
                j,
            ) && i < j,
{
    let l5 = ";$psi.UseShellExecute = $false;$psi.RedirectStandardInput = $true;$psi.RedirectStandardOutput = $true;$psi.RedirectStandardError = $true;$p = New-Object System.Diagnostics.Process;$p.StartInfo = $psi;$stdout = New-Object System.Text.StringBuilder;$stderr = New-Object System.Text.StringBuilder;$ready = New-Object System.Threading.ManualResetEventSlim($false);$stderrReady = New-Object System.Threading.ManualResetEventSlim($false);$handler = [System.Diagnostics.DataReceivedEventHandler]{ param($sender, $eventArgs) if ($null -ne $eventArgs.Data) {  [void]$stdout.AppendLine($eventArgs.Data);  if ($eventArgs.Data -match 'Flutter run key commands|The Flutter DevTools debugger and profiler|ready|A Dart VM Service') { $ready.Set() } }};$errorHandler = [System.Diagnostics.DataReceivedEventHandler]{ param($sender, $eventArgs) if ($null -ne $eventArgs.Data) {  [void]$stderr.AppendLine($eventArgs.Data);  if ($eventArgs.Data -match 'Flutter run key commands|The Flutter DevTools debugger and profiler|ready|A Dart VM Service') { $stderrReady.Set() } }};$p.add_OutputDataReceived($handler);$p.add_ErrorDataReceived($errorHandler);if (-not $p.Start()) { throw 'Failed to start flutter attach.' };$p.BeginOutputReadLine();$p.BeginErrorReadLine();if (-not ($ready.Wait(20000) -or $stderrReady.Wait(20000))) { try { if (-not $p.HasExited) { $p.Kill() } } catch {}; throw 'Timed out waiting for flutter attach to become ready.'};$p.StandardInput.WriteLine('"@;
    let l6 = "');$p.StandardInput.WriteLine('q');$p.StandardInput.Flush();if (-not $p.WaitForExit(30000)) { try { $p.Kill() } catch {}; throw 'Timed out waiting for flutter attach to exit after "@;
    let w = "$p.StandardInput.WriteLine('"@;
    let q = "');$p.StandardInput.WriteLine('q');"@;
    let wait = "WaitForExit("@;
    reveal_strlit(";$psi.UseShellExecute = $false;$psi.RedirectStandardInput = $true;$psi.RedirectStandardOutput = $true;$psi.RedirectStandardError = $true;$p = New-Object System.Diagnostics.Process;$p.StartInfo = $psi;$stdout = New-Object System.Text.StringBuilder;$stderr = New-Object System.Text.StringBuilder;$ready = New-Object System.Threading.ManualResetEventSlim($false);$stderrReady = New-Object System.Threading.ManualResetEventSlim($false);$handler = [System.Diagnostics.DataReceivedEventHandler]{ param($sender, $eventArgs) if ($null -ne $eventArgs.Data) {  [void]$stdout.AppendLine($eventArgs.Data);  if ($eventArgs.Data -match 'Flutter run key commands|The Flutter DevTools debugger and profiler|ready|A Dart VM Service') { $ready.Set() } }};$errorHandler = [System.Diagnostics.DataReceivedEventHandler]{ param($sender, $eventArgs) if ($null -ne $eventArgs.Data) {  [void]$stderr.AppendLine($eventArgs.Data);  if ($eventArgs.Data -match 'Flutter run key commands|The Flutter DevTools debugger and profiler|ready|A Dart VM Service') { $stderrReady.Set() } }};$p.add_OutputDataReceived($handler);$p.add_ErrorDataReceived($errorHandler);if (-not $p.Start()) { throw 'Failed to start flutter attach.' };$p.BeginOutputReadLine();$p.BeginErrorReadLine();if (-not ($ready.Wait(20000) -or $stderrReady.Wait(20000))) { try { if (-not $p.HasExited) { $p.Kill() } } catch {}; throw 'Timed out waiting for flutter attach to become ready.'};$p.StandardInput.WriteLine('");
    reveal_strlit("');$p.StandardInput.WriteLine('q');$p.StandardInput.Flush();if (-not $p.WaitForExit(30000)) { try { $p.Kill() } catch {}; throw 'Timed out waiting for flutter attach to exit after ");
    reveal_strlit("$p.StandardInput.WriteLine('");
    reveal_strlit("');$p.StandardInput.WriteLine('q');");
    reveal_strlit("WaitForExit(");
    assert(l5.len() == 1451);
    assert(l5.subrange(1423, 1451) =~= w);
    assert(l6.subrange(0, 35) =~= q);
    assert(l6.subrange(72, 84) =~= wait);
    let script = attach_script(flutter_q, root_q, uri_q, action_key, action_label);
    let pre = "$psi = New-Object System.Diagnostics.ProcessStartInfo;$psi.FileName = "@ + flutter_q
        + ";$psi.Arguments = 'attach --debug-uri ' + "@ + uri_q + " + ' --project-root ' + "@ + root_q
        + " + ' --report-ready';$psi.WorkingDirectory = "@ + root_q;
    let a = pre + l5;
    let b = a + seq![action_key] + l6;
    let rest = action_label + ".'};$combined = (($stdout.ToString() + \"`n\" + $stderr.ToString()).Trim());if ($p.ExitCode -ne 0 -and $combined -notmatch 'ready|Reloaded|Restarted|performing hot reload|performing hot restart') { throw ('flutter attach exited with code ' + $p.ExitCode + ': ' + $combined)};Write-Output ('Flutter "@ + action_label + " requested via shell attach shim.' + [Environment]::NewLine + $combined.Trim())"@;
    assert(script =~= b + rest);
    let needle = w + seq![action_key] + q;
    let i: int = a.len() - 28;
    let j: int = a.len() + 73int;
    assert(script.subrange(i, i + needle.len()) =~= needle) by {
        assert forall|t: int| 0 <= t < needle.len() implies script.subrange(i, i + needle.len())[t]
            == needle[t] by {
            if t < 28 {
                assert(script[i + t] == a[i + t]);
                assert(a[i + t] == l5[1423 + t]);
                assert(l5[1423 + t] == w[t]);
            } else if t == 28 {
                assert(script[i + t] == action_key);
            } else {
                assert(script[i + t] == l6[t - 29]);
                assert(l6.subrange(0, 35)[t - 29] == q[t - 29]);
            }
        }
    }
    assert(script.subrange(j, j + 12) =~= wait) by {
        assert forall|t: int| 0 <= t < 12 implies script.subrange(j, j + 12)[t] == wait[t] by {
            assert(script[j + t] == l6[72 + t]);
            assert(l6.subrange(72, 84)[t] == wait[t]);
        }
    }
    assert(occurs_at(script, needle, i));
    assert(occurs_at(script, wait, j));
}

/// The PowerShell script for a hot reload (`r`) or hot restart (`R`) through
/// `flutter attach` (see `attach_script`): the tool path, project root and
/// VM service URI are quoted as PowerShell literals.
pub fn build_flutter_attach_shell_script(
    flutter: &str,
    project_root: &str,
    vm_service_uri: &str,
    action_key: char,
    action_label: &str,
) -> (r: String)
    ensures
        r@ == attach_script(
            ps_quote(flutter@),
            ps_quote(project_root@),
            ps_quote(vm_service_uri@),
            action_key,
            action_label@,
        ),
{
    let flutter_q = quote_powershell_literal(flutter);
    let root_q = quote_powershell_literal(project_root);
    let uri_q = quote_powershell_literal(vm_service_uri);
    let mut s = owned("$psi = New-Object System.Diagnostics.ProcessStartInfo;$psi.FileName = ");
    s.append(flutter_q.as_str());
    s.append(";$psi.Arguments = 'attach --debug-uri ' + ");
    s.append(uri_q.as_str());
    s.append(" + ' --project-root ' + ");
    s.append(root_q.as_str());
    s.append(" + ' --report-ready';$psi.WorkingDirectory = ");
    s.append(root_q.as_str());
    s.append(";$psi.UseShellExecute = $false;$psi.RedirectStandardInput = $true;$psi.RedirectStandardOutput = $true;$psi.RedirectStandardError = $true;$p = New-Object System.Diagnostics.Process;$p.StartInfo = $psi;$stdout = New-Object System.Text.StringBuilder;$stderr = New-Object System.Text.StringBuilder;$ready = New-Object System.Threading.ManualResetEventSlim($false);$stderrReady = New-Object System.Threading.ManualResetEventSlim($false);$handler = [System.Diagnostics.DataReceivedEventHandler]{ param($sender, $eventArgs) if ($null -ne $eventArgs.Data) {  [void]$stdout.AppendLine($eventArgs.Data);  if ($eventArgs.Data -match 'Flutter run key commands|The Flutter DevTools debugger and profiler|ready|A Dart VM Service') { $ready.Set() } }};$errorHandler = [System.Diagnostics.DataReceivedEventHandler]{ param($sender, $eventArgs) if ($null -ne $eventArgs.Data) {  [void]$stderr.AppendLine($eventArgs.Data);  if ($eventArgs.Data -match 'Flutter run key commands|The Flutter DevTools debugger and profiler|ready|A Dart VM Service') { $stderrReady.Set() } }};$p.add_OutputDataReceived($handler);$p.add_ErrorDataReceived($errorHandler);if (-not $p.Start()) { throw 'Failed to start flutter attach.' };$p.BeginOutputReadLine();$p.BeginErrorReadLine();if (-not ($ready.Wait(20000) -or $stderrReady.Wait(20000))) { try { if (-not $p.HasExited) { $p.Kill() } } catch {}; throw 'Timed out waiting for flutter attach to become ready.'};$p.StandardInput.WriteLine('");
    push_char(&mut s, action_key);
    s.append("');$p.StandardInput.WriteLine('q');$p.StandardInput.Flush();if (-not $p.WaitForExit(30000)) { try { $p.Kill() } catch {}; throw 'Timed out waiting for flutter attach to exit after ");
    s.append(action_label);
    s.append(".'};$combined = (($stdout.ToString() + \"`n\" + $stderr.ToString()).Trim());if ($p.ExitCode -ne 0 -and $combined -notmatch 'ready|Reloaded|Restarted|performing hot reload|performing hot restart') { throw ('flutter attach exited with code ' + $p.ExitCode + ': ' + $combined)};Write-Output ('Flutter ");
    s.append(action_label);
    s.append(" requested via shell attach shim.' + [Environment]::NewLine + $combined.Trim())");
    assert(s@ =~= attach_script(flutter_q@, root_q@, uri_q@, action_key, action_label@));
    s
}

/// What a hot reload or hot restart targets.
#[derive(Debug)]
pub enum HotCommandTarget {
    /// The VM service URI, and how it was found.
    Resolved { uri: String, source: String },
    /// The URI recorded in the newest info file of the worktree.
    LatestInfoFile,
    /// The URI recorded in the info file at `path`.
    InfoFile { path: String },
}

/// The input names an info file rather than a URI: it names no VM service
/// scheme (`ws://`, `wss://`, `http://`, `https://`), and it has a `json`
/// extension, holds a path separator, or starts with `.`.
pub open spec fn looks_like_info_file(t: Seq<char>) -> bool {
    &&& !has_vm_service_scheme(t)
    &&& extension(t) == Some("json"@) || t.contains('\\') || t.contains('/') || is_prefix("."@, t)
}

/// The message telling which info file a URI came from.
pub open spec fn info_file_source(path: Seq<char>) -> Seq<char> {
    "Using VM service info file `"@ + path + "`"@
}

/// The message telling which info file a URI came from.
pub fn info_file_source_text(path: &str) -> (r: String)
    ensures
        r@ == info_file_source(path@),
{
    let mut r = owned("Using VM service info file `");
    r.append(path);
    r.append("`");
    r
}

/// The target of a hot reload or restart read from the info file at `path`,
/// whose text is `contents`: the URI it records (see `info_text_outcome`) and
/// a message naming the file.
pub fn hot_command_target_from_info_text(path: &str, contents: &str) -> (r: Result<
    (String, String),
    String,
>)
    ensures
        info_text_outcome(
            match r {
                Ok((uri, _)) => Ok::<String, String>(uri),
                Err(e) => Err::<String, String>(e),
            },
            path@,
            contents@,
        ),
        r matches Ok((_, source)) ==> source@ == info_file_source(path@),
{
    match vm_service_uri_from_info_text(path, contents) {
        Ok(uri) => Ok((uri, info_file_source_text(path))),
        Err(e) => Err(e),
    }
}

/// Decides what a hot reload or hot restart targets: for a blank input, the
/// newest info file of the worktree; for an input that looks like an info
/// file, that file (relative to the worktree root unless absolute); else the
/// input as a VM service URI, normalized.
pub fn resolve_flutter_hot_command_target_for_root(worktree_root: &str, input: &str) -> (r: Result<
    HotCommandTarget,
    String,
>)
    ensures
        trim(input@).len() == 0 ==> r matches Ok(HotCommandTarget::LatestInfoFile),
        trim(input@).len() > 0 && looks_like_info_file(trim(input@)) ==> (r matches Ok(
            HotCommandTarget::InfoFile { path },
        ) && path@ == if is_absolute(trim(input@)) {
            trim(input@)
        } else {
            join(worktree_root@, trim(input@))
        }),
        trim(input@).len() > 0 && !looks_like_info_file(trim(input@)) ==> (r matches Ok(
            HotCommandTarget::Resolved { uri, source },
        ) && uri@ == normalized_uri(trim(input@)) && source@ == "Using provided VM service URI"@),
{
    let trimmed = trim_str(input);
    let t = trimmed.as_str();
    if t.unicode_len() == 0 {
        return Ok(HotCommandTarget::LatestInfoFile);
    }
    let json_ext = match extension_of(t) {
        Some(e) => str_eq(e.as_str(), "json"),
        None => false,
    };
    if !starts_with_scheme(t) && (json_ext || has_char(t, '\\') || has_char(t, '/')
        || crate::text::starts_with(t, ".")) {
        let path = if is_absolute_path(t) {
            owned(t)
        } else {
            join_path(worktree_root, t)
        };
        return Ok(HotCommandTarget::InfoFile { path });
    }
    proof {
        lemma_trim_idempotent(input@);
    }
    match normalize_vm_service_uri(t) {
        Ok(uri) => Ok(HotCommandTarget::Resolved { uri, source: owned("Using provided VM service URI") }),
        Err(e) => Err(e),
    }
}

/// Trimming twice trims once.
pub proof fn lemma_trim_idempotent(s: Seq<char>)
    ensures
        trim(trim(s)) == trim(s),
{
    let t = trim(s);
    crate::text::lemma_trim_bounds(s);
}

/// What a hot reload or hot restart shows: where the URI came from, followed
/// on a new line by what the command printed (trimmed) unless that is blank,
/// in a section labelled `Flutter <action>`.
pub fn attach_action_output(source: String, command_output: &str, action_label: &str) -> (o: SlashOutput)
    ensures
        is_single_section(
            o,
            if trim(command_output@).len() == 0 {
                source@
            } else {
                source@ + "\n"@ + trim(command_output@)
            },
            "Flutter "@ + action_label@,
        ),
{
    let out = trim_str(command_output);
    let text = if out.as_str().unicode_len() == 0 {
        source
    } else {
        let mut t = source;
        t.append("\n");
        t.append(out.as_str());
        t
    };
    let label = concat("Flutter ", action_label);
    single_section_output(text, label.as_str())
}

/// The message when a hot reload or hot restart fails.
pub fn attach_failure_message(action_label: &str, stderr: &str, stdout: &str) -> (r: String)
    ensures
        r@ == failure_message("Failed to trigger Flutter "@ + action_label@, stderr@, stdout@),
{
    let prefix = concat("Failed to trigger Flutter ", action_label);
    command_failure_message(prefix.as_str(), stderr, stdout)
}

/// What a hot reload or restart shows once `flutter attach` ran through
/// PowerShell, given how it exited (`status`, `None` when a signal ended it)
/// and what it printed: when it failed, the error of
/// `attach_failure_message`; else the output of `attach_action_output`.
pub fn attach_command_outcome(
    status: Option<i32>,
    stdout: &str,
    stderr: &str,
    source: String,
    action_label: &str,
) -> (r: Result<SlashOutput, String>)
    ensures
        status != Some(0i32) ==> (r matches Err(m) && m@ == failure_message(
            "Failed to trigger Flutter "@ + action_label@,
            stderr@,
            stdout@,
        )),
        status == Some(0i32) ==> (r matches Ok(o) && is_single_section(
            o,
            if trim(stdout@).len() == 0 {
                source@
            } else {
                source@ + "\n"@ + trim(stdout@)
            },
            "Flutter "@ + action_label@,
        )),
{
    if status != Some(0i32) {
        return Err(attach_failure_message(action_label, stderr, stdout));
    }
    Ok(attach_action_output(source, stdout, action_label))
}

/// The JSON-RPC request that asks the VM service for its VM.
pub fn vm_probe_request() -> (r: String)
    ensures
        r@ == crate::json::render_object(seq![
            ("id"@, crate::json::JsonView::Str("zed-dart-probe"@)),
            ("jsonrpc"@, crate::json::JsonView::Str("2.0"@)),
            ("method"@, crate::json::JsonView::Str("getVM"@)),
        ]),
{
    let mut m: Vec<(String, crate::json::JsonValue)> = Vec::new();
    m.push((owned("id"), crate::json::JsonValue::Str(owned("zed-dart-probe"))));
    m.push((owned("jsonrpc"), crate::json::JsonValue::Str(owned("2.0"))));
    m.push((owned("method"), crate::json::JsonValue::Str(owned("getVM"))));
    assert(crate::json::entries_view(m@) =~= seq![
        ("id"@, crate::json::JsonView::Str("zed-dart-probe"@)),
        ("jsonrpc"@, crate::json::JsonView::Str("2.0"@)),
        ("method"@, crate::json::JsonView::Str("getVM"@)),
    ]);
    crate::json::render_object_text(&m)
}

/// What `serde_json` makes of a VM service reply: the reply parsed as JSON
/// (`serde_json::from_str` into a `Value`) and written back pretty-printed
/// (`serde_json::to_string_pretty`); or the failure, as `(false, message)`
/// when the reply is not JSON and `(true, message)` when writing it back
/// failed, `message` being the error's text.
pub uninterp spec fn json_pretty(payload: Seq<char>) -> Result<Seq<char>, (bool, Seq<char>)>;

/// Pretty-prints a JSON reply with `serde_json::from_str` and
/// `serde_json::to_string_pretty`. Trusted: the contract claims only that the
/// outcome is `json_pretty` of the reply's characters, a function of them
/// alone (serde_json's objects keep their keys sorted); it says nothing of
/// which texts parse or how they are laid out.
#[verifier::external_body]
fn pretty_json(payload: &str) -> (r: Result<String, (bool, String)>)
    ensures
        json_pretty(payload@) == match r {
            Ok(t) => Ok::<Seq<char>, (bool, Seq<char>)>(t@),
            Err((f, e)) => Err::<Seq<char>, (bool, Seq<char>)>((f, e@)),
        },
{
    let value: zed_extension_api::serde_json::Value = zed_extension_api::serde_json::from_str(
        payload,
    ).map_err(|err| (false, err.to_string()))?;
    zed_extension_api::serde_json::to_string_pretty(&value).map_err(|err| (true, err.to_string()))
}

/// What `/flutter-vm-probe` shows for the reply `payload` that the VM service
/// at `websocket_uri` sent: the reply pretty-printed (see `json_pretty`) in a
/// section labelled `Flutter VM Probe`; an error naming the service when the
/// reply is not JSON, or naming the formatting when it could not be written.
pub fn vm_probe_output(websocket_uri: &str, payload: &str) -> (r: Result<SlashOutput, String>)
    ensures
        json_pretty(payload@) matches Ok(t) ==> (r matches Ok(o) && is_single_section(
            o,
            t,
            "Flutter VM Probe"@,
        )),
        json_pretty(payload@) matches Err((false, e)) ==> (r matches Err(m) && m@
            == "Invalid VM service JSON response from `"@ + websocket_uri@ + "`: "@ + e),
        json_pretty(payload@) matches Err((true, e)) ==> (r matches Err(m) && m@
            == "Failed to format VM service response: "@ + e),
{
    match pretty_json(payload) {
        Ok(text) => Ok(single_section_output(text, "Flutter VM Probe")),
        Err((false, e)) => {
            let mut m = owned("Invalid VM service JSON response from `");
            m.append(websocket_uri);
            m.append("`: ");
            m.append(e.as_str());
            Err(m)
        },
        Err((true, e)) => Err(concat("Failed to format VM service response: ", e.as_str())),
    }
}

/// The text `/flutter` shows without a subcommand.
pub open spec fn help_text() -> Seq<char> {
    "Available Flutter slash commands:\n- `/flutter devices` or `/flutter-devices`\n- `/flutter devtools <vm-service-uri>` or `/flutter-devtools <vm-service-uri>`\n- `/flutter hot-reload [vm-service-uri-or-info-file]` or `/flutter-hot-reload [...]`\n- `/flutter hot-restart [vm-service-uri-or-info-file]` or `/flutter-hot-restart [...]`\n- `/flutter vm-probe <vm-service-uri>` or `/flutter-vm-probe <vm-service-uri>`\n\nNote: these are Zed slash commands exposed by the extension. They are separate from Zed Agent-specific commands."@
}

/// The list of Flutter slash commands, in a section labelled
/// `Flutter Commands`.
pub fn flutter_slash_command_help() -> (o: SlashOutput)
    ensures
        is_single_section(o, help_text(), "Flutter Commands"@),
{
    single_section_output(owned("Available Flutter slash commands:\n- `/flutter devices` or `/flutter-devices`\n- `/flutter devtools <vm-service-uri>` or `/flutter-devtools <vm-service-uri>`\n- `/flutter hot-reload [vm-service-uri-or-info-file]` or `/flutter-hot-reload [...]`\n- `/flutter hot-restart [vm-service-uri-or-info-file]` or `/flutter-hot-restart [...]`\n- `/flutter vm-probe <vm-service-uri>` or `/flutter-vm-probe <vm-service-uri>`\n\nNote: these are Zed slash commands exposed by the extension. They are separate from Zed Agent-specific commands."), "Flutter Commands")
}

/// The command a `/flutter` subcommand stands for.
pub open spec fn subcommand_target(sub: Seq<char>) -> Option<Seq<char>> {
    if sub == "devices"@ {
        Some("flutter-devices"@)
    } else if sub == "devtools"@ {
        Some("flutter-devtools"@)
    } else if sub == "hot-reload"@ {
        Some("flutter-hot-reload"@)
    } else if sub == "hot-restart"@ {
        Some("flutter-hot-restart"@)
    } else if sub == "vm-probe"@ {
        Some("flutter-vm-probe"@)
    } else {
        None
    }
}

/// Law: `/flutter` knows exactly the subcommands `devices`, `devtools`,
/// `hot-reload`, `hot-restart` and `vm-probe`, and each stands for the command
/// named `flutter-` followed by it.
pub proof fn law_subcommand_targets(sub: Seq<char>)
    ensures
        subcommand_target(sub) is Some <==> (sub == "devices"@ || sub == "devtools"@ || sub
            == "hot-reload"@ || sub == "hot-restart"@ || sub == "vm-probe"@),
        subcommand_target(sub) is Some ==> subcommand_target(sub) == Some("flutter-"@ + sub),
{
    reveal_strlit("flutter-");
    reveal_strlit("devices");
    reveal_strlit("devtools");
    reveal_strlit("hot-reload");
    reveal_strlit("hot-restart");
    reveal_strlit("vm-probe");
    reveal_strlit("flutter-devices");
    reveal_strlit("flutter-devtools");
    reveal_strlit("flutter-hot-reload");
    reveal_strlit("flutter-hot-restart");
    reveal_strlit("flutter-vm-probe");
    if sub == "devices"@ {
        assert("flutter-"@ + sub =~= "flutter-devices"@);
    } else if sub == "devtools"@ {
        assert("flutter-"@ + sub =~= "flutter-devtools"@);
    } else if sub == "hot-reload"@ {
        assert("flutter-"@ + sub =~= "flutter-hot-reload"@);
    } else if sub == "hot-restart"@ {
        assert("flutter-"@ + sub =~= "flutter-hot-restart"@);
    } else if sub == "vm-probe"@ {
        assert("flutter-"@ + sub =~= "flutter-vm-probe"@);
    }
}

/// Law: in a worktree, `/flutter hot-reload …` asks `flutter attach` for a
/// hot reload (key `r`) and `/flutter hot-restart …` for a hot restart (key
/// `R`), on the target that the remaining arguments name.
pub proof fn law_flutter_hot_commands(args: Seq<Seq<char>>, r: Result<SlashAction, String>)
    requires
        args.len() > 0,
        route_outcome(r, "flutter"@, args, true),
    ensures
        args[0] == "hot-reload"@ ==> (r matches Ok(
            SlashAction::AttachAction { input, action_key, action_label },
        ) && input@ == join_seq(args.drop_first(), " "@) && action_key == 'r' && action_label@
            == "hot reload"@),
        args[0] == "hot-restart"@ ==> (r matches Ok(
            SlashAction::AttachAction { input, action_key, action_label },
        ) && input@ == join_seq(args.drop_first(), " "@) && action_key == 'R' && action_label@
            == "hot restart"@),
{
    law_subcommand_targets(args[0]);
    reveal_strlit("flutter-");
    reveal_strlit("flutter-devices");
    reveal_strlit("flutter-devtools");
    reveal_strlit("flutter-hot-reload");
    reveal_strlit("flutter-hot-restart");
    reveal_strlit("hot-reload");
    reveal_strlit("hot-restart");
    if args[0] == "hot-reload"@ {
        assert("flutter-"@ + args[0] =~= "flutter-hot-reload"@);
        assert("flutter-hot-reload"@ != "flutter-devices"@) by {
            assert("flutter-hot-reload"@[8] != "flutter-devices"@[8]);
        }
        assert("flutter-hot-reload"@ != "flutter-devtools"@) by {
            assert("flutter-hot-reload"@[8] != "flutter-devtools"@[8]);
        }
    }
    if args[0] == "hot-restart"@ {
        assert("flutter-"@ + args[0] =~= "flutter-hot-restart"@);
        assert("flutter-hot-restart"@ != "flutter-devices"@) by {
            assert("flutter-hot-restart"@[8] != "flutter-devices"@[8]);
        }
        assert("flutter-hot-restart"@ != "flutter-devtools"@) by {
            assert("flutter-hot-restart"@[8] != "flutter-devtools"@[8]);
        }
        assert("flutter-hot-restart"@ != "flutter-hot-reload"@) by {
            assert("flutter-hot-restart"@.len() != "flutter-hot-reload"@.len());
        }
    }
}

/// The error for an unknown `/flutter` subcommand.
pub open spec fn unknown_subcommand_error(sub: Seq<char>) -> Seq<char> {
    "Unknown Flutter subcommand `"@ + sub + "`. Run `/flutter` to see the supported commands."@
}

/// What running a slash command takes.
#[derive(Debug)]
pub enum SlashAction {
    /// Show this output.
    Show(SlashOutput),
    /// List the Flutter devices that match `query`.
    ListDevices { query: String },
    /// Drive `flutter attach` for a hot reload or hot restart of the target
    /// that `input` names (see `resolve_flutter_hot_command_target_for_root`).
    AttachAction { input: String, action_key: char, action_label: String },
    /// Ask the VM service at `uri` for its VM.
    ProbeVmService { uri: String },
}

/// The error when a command needs a worktree and has none.
pub open spec fn worktree_required_error() -> Seq<char> {
    "Worktree is required"@
}

/// What a command other than `/flutter` takes, given its arguments joined with
/// spaces (`j`) and whether there is a worktree (`w`).
pub open spec fn direct_routes_to(
    r: Result<SlashAction, String>,
    name: Seq<char>,
    j: Seq<char>,
    w: bool,
) -> bool {
    if name == "flutter-devices"@ {
        if !w {
            r matches Err(e) && e@ == worktree_required_error()
        } else {
            r matches Ok(SlashAction::ListDevices { query }) && query@ == j
        }
    } else if name == "flutter-devtools"@ {
        if trim(j).len() == 0 {
            r matches Err(e) && e@ == uri_required_error()
        } else {
            r matches Ok(SlashAction::Show(o)) && is_single_section(o, devtools_url(j), "DevTools URL"@)
        }
    } else if name == "flutter-hot-reload"@ || name == "flutter-hot-restart"@ {
        if !w {
            r matches Err(e) && e@ == worktree_required_error()
        } else if name == "flutter-hot-reload"@ {
            r matches Ok(SlashAction::AttachAction { input, action_key, action_label }) && input@ == j
                && action_key == 'r' && action_label@ == "hot reload"@
        } else {
            r matches Ok(SlashAction::AttachAction { input, action_key, action_label }) && input@ == j
                && action_key == 'R' && action_label@ == "hot restart"@
        }
    } else if name == "flutter-vm-probe"@ {
        r matches Ok(SlashAction::ProbeVmService { uri }) && uri@ == j
    } else {
        r matches Err(e) && e@ == "Invalid slash command."@
    }
}

/// What a command other than `/flutter` takes.
fn route_direct(name: &str, args: &Vec<String>, has_worktree: bool) -> (r: Result<SlashAction, String>)
    ensures
        direct_routes_to(r, name@, join_seq(crate::json::strings_view(args@), " "@), has_worktree),
{
    proof {
        reveal_strlit("flutter-devices");
        reveal_strlit("flutter-devtools");
        reveal_strlit("flutter-hot-reload");
        reveal_strlit("flutter-hot-restart");
        reveal_strlit("flutter-vm-probe");
        assert("flutter-devices"@[11] != "flutter-devtools"@[11]);
        assert("flutter-hot-reload"@[14] != "flutter-hot-restart"@[14]);
    }
    let j = join_strings(args, " ");
    if str_eq(name, "flutter-devices") {
        if !has_worktree {
            return Err(owned("Worktree is required"));
        }
        return Ok(SlashAction::ListDevices { query: j });
    }
    if str_eq(name, "flutter-devtools") {
        return match build_devtools_url(j.as_str()) {
            Ok(url) => Ok(SlashAction::Show(single_section_output(url, "DevTools URL"))),
            Err(e) => Err(e),
        };
    }
    if str_eq(name, "flutter-hot-reload") {
        if !has_worktree {
            return Err(owned("Worktree is required"));
        }
        return Ok(SlashAction::AttachAction { input: j, action_key: 'r', action_label: owned("hot reload") });
    }
    if str_eq(name, "flutter-hot-restart") {
        if !has_worktree {
            return Err(owned("Worktree is required"));
        }
        return Ok(SlashAction::AttachAction { input: j, action_key: 'R', action_label: owned("hot restart") });
    }
    if str_eq(name, "flutter-vm-probe") {
        return Ok(SlashAction::ProbeVmService { uri: j });
    }
    Err(owned("Invalid slash command."))
}

/// The command a `/flutter` subcommand stands for.
fn subcommand_target_exec(sub: &str) -> (r: Option<&'static str>)
    ensures
        r matches Some(t) ==> subcommand_target(sub@) == Some(t@),
        r is None ==> subcommand_target(sub@) is None,
{
    if str_eq(sub, "devices") {
        Some("flutter-devices")
    } else if str_eq(sub, "devtools") {
        Some("flutter-devtools")
    } else if str_eq(sub, "hot-reload") {
        Some("flutter-hot-reload")
    } else if str_eq(sub, "hot-restart") {
        Some("flutter-hot-restart")
    } else if str_eq(sub, "vm-probe") {
        Some("flutter-vm-probe")
    } else {
        None
    }
}

/// `r` is what `route_slash_command` gives for the command `name` with the
/// arguments `args`, `w` saying whether there is a worktree: `/flutter` alone
/// shows the help; `/flutter <sub> …` runs the command the subcommand stands
/// for with the remaining arguments (an unknown subcommand is an error); the
/// other commands take their arguments joined with spaces (see
/// `direct_routes_to`).
pub open spec fn route_outcome(
    r: Result<SlashAction, String>,
    name: Seq<char>,
    args: Seq<Seq<char>>,
    w: bool,
) -> bool {
    &&& name == "flutter"@ && args.len() == 0 ==> (r matches Ok(SlashAction::Show(o))
        && is_single_section(o, help_text(), "Flutter Commands"@))
    &&& name == "flutter"@ && args.len() > 0 && subcommand_target(args[0]) is None ==> (r matches Err(
        e,
    ) && e@ == unknown_subcommand_error(args[0]))
    &&& name == "flutter"@ && args.len() > 0 && subcommand_target(args[0]) is Some ==> direct_routes_to(
        r,
        subcommand_target(args[0]).unwrap(),
        join_seq(args.drop_first(), " "@),
        w,
    )
    &&& name != "flutter"@ ==> direct_routes_to(r, name, join_seq(args, " "@), w)
}

/// What a routed slash command amounts to, as values: the text and sections
/// it shows, the action it asks for, or its error.
pub enum ActionView {
    Show(Seq<char>, Seq<(int, int, Seq<char>)>),
    ListDevices(Seq<char>),
    Attach(Seq<char>, char, Seq<char>),
    Probe(Seq<char>),
    Failed(Seq<char>),
}

/// The routed command `r` as values.
pub open spec fn action_view(r: Result<SlashAction, String>) -> ActionView {
    match r {
        Ok(SlashAction::Show(o)) => ActionView::Show(
            o.text@,
            o.sections@.map_values(|x: OutputSection| (x.start as int, x.end as int, x.label@)),
        ),
        Ok(SlashAction::ListDevices { query }) => ActionView::ListDevices(query@),
        Ok(SlashAction::AttachAction { input, action_key, action_label }) => ActionView::Attach(
            input@,
            action_key,
            action_label@,
        ),
        Ok(SlashAction::ProbeVmService { uri }) => ActionView::Probe(uri@),
        Err(e) => ActionView::Failed(e@),
    }
}

/// Two results that `direct_routes_to` allows for one command, arguments and
/// worktree are the same action.
proof fn lemma_direct_route_unique(
    r1: Result<SlashAction, String>,
    r2: Result<SlashAction, String>,
    name: Seq<char>,
    j: Seq<char>,
    w: bool,
)
    requires
        direct_routes_to(r1, name, j, w),
        direct_routes_to(r2, name, j, w),
    ensures
        action_view(r1) == action_view(r2),
{
    if let (Ok(SlashAction::Show(o1)), Ok(SlashAction::Show(o2))) = (r1, r2) {
        let s1 = o1.sections@.map_values(|x: OutputSection| (x.start as int, x.end as int, x.label@));
        let s2 = o2.sections@.map_values(|x: OutputSection| (x.start as int, x.end as int, x.label@));
        assert(s1 =~= s2);
    }
}

/// Law: `/flutter <sub> <args…>` does what the command that `<sub>` stands
/// for does with `<args…>`.
pub proof fn law_flutter_subcommand_dispatch(
    args: Seq<Seq<char>>,
    w: bool,
    via_flutter: Result<SlashAction, String>,
    direct: Result<SlashAction, String>,
)
    requires
        args.len() > 0,
        subcommand_target(args[0]) is Some,
        route_outcome(via_flutter, "flutter"@, args, w),
        route_outcome(direct, subcommand_target(args[0]).unwrap(), args.drop_first(), w),
    ensures
        action_view(via_flutter) == action_view(direct),
{
    reveal_strlit("flutter");
    let t = subcommand_target(args[0]).unwrap();
    assert(t != "flutter"@) by {
        reveal_strlit("flutter-devices");
        reveal_strlit("flutter-devtools");
        reveal_strlit("flutter-hot-reload");
        reveal_strlit("flutter-hot-restart");
        reveal_strlit("flutter-vm-probe");
        assert(t.len() > 7);
    }
    lemma_direct_route_unique(via_flutter, direct, t, join_seq(args.drop_first(), " "@), w);
}

/// What running a slash command takes: `/flutter` alone shows the help;
/// `/flutter <sub> …` runs the command the subcommand stands for with the
/// remaining arguments (an unknown subcommand is an error); the other commands
/// take their arguments joined with spaces (see `direct_routes_to`).
/// `has_worktree` says whether the command runs in a worktree.
pub fn route_slash_command(name: &str, args: &Vec<String>, has_worktree: bool) -> (r: Result<
    SlashAction,
    String,
>)
    ensures
        route_outcome(r, name@, crate::json::strings_view(args@), has_worktree),
{
    if str_eq(name, "flutter") {
        if args.len() == 0 {
            return Ok(SlashAction::Show(flutter_slash_command_help()));
        }
        let target = match subcommand_target_exec(args[0].as_str()) {
            Some(t) => t,
            None => {
                let mut msg = owned("Unknown Flutter subcommand `");
                msg.append(args[0].as_str());
                msg.append("`. Run `/flutter` to see the supported commands.");
                return Err(msg);
            },
        };
        let rest = crate::scenario::strings_from(args, 1);
        assert(crate::json::strings_view(rest@) =~= crate::json::strings_view(args@).drop_first());
        return route_direct(target, &rest, has_worktree);
    }
    route_direct(name, args, has_worktree)
}

/// A completion offered for a slash command's argument.
#[derive(Debug)]
pub struct ArgumentCompletion {
    pub label: String,
    pub new_text: String,
    pub run_command: bool,
}

/// The arguments a slash command suggests.
pub open spec fn suggestions_for(name: Seq<char>) -> Seq<Seq<char>> {
    if name == "flutter"@ {
        seq!["devices"@, "devtools http://127.0.0.1:12345/"@, "hot-reload"@, "hot-restart"@, "vm-probe ws://127.0.0.1:12345/ws"@]
    } else if name == "flutter-devices"@ {
        seq!["chrome"@, "macos"@, "windows"@, "linux"@, "android"@, "ios"@]
    } else if name == "flutter-devtools"@ || name == "flutter-hot-reload"@ || name
        == "flutter-hot-restart"@ || name == "flutter-vm-probe"@ {
        seq!["http://127.0.0.1:12345/"@, "ws://127.0.0.1:12345/ws"@, "127.0.0.1:12345"@]
    } else {
        Seq::empty()
    }
}

/// The suggestions that hold the query, in order.
pub open spec fn suggestions_matching(ss: Seq<Seq<char>>, q: Seq<char>) -> Seq<Seq<char>>
    decreases ss.len(),
{
    if ss.len() == 0 {
        Seq::empty()
    } else if contains_seq(ss.last(), q) {
        suggestions_matching(ss.drop_last(), q).push(ss.last())
    } else {
        suggestions_matching(ss.drop_last(), q)
    }
}

/// The suggestions of a command as literals.
fn suggestions_exec(name: &str) -> (r: Vec<String>)
    ensures
        crate::json::strings_view(r@) == suggestions_for(name@),
{
    let mut v: Vec<String> = Vec::new();
    if str_eq(name, "flutter") {
        v.push(owned("devices"));
        v.push(owned("devtools http://127.0.0.1:12345/"));
        v.push(owned("hot-reload"));
        v.push(owned("hot-restart"));
        v.push(owned("vm-probe ws://127.0.0.1:12345/ws"));
    } else if str_eq(name, "flutter-devices") {
        v.push(owned("chrome"));
        v.push(owned("macos"));
        v.push(owned("windows"));
        v.push(owned("linux"));
        v.push(owned("android"));
        v.push(owned("ios"));
    } else if str_eq(name, "flutter-devtools") || str_eq(name, "flutter-hot-reload") || str_eq(
        name,
        "flutter-hot-restart",
    ) || str_eq(name, "flutter-vm-probe") {
        v.push(owned("http://127.0.0.1:12345/"));
        v.push(owned("ws://127.0.0.1:12345/ws"));
        v.push(owned("127.0.0.1:12345"));
    }
    assert(crate::json::strings_view(v@) =~= suggestions_for(name@));
    v
}

/// The completions for a slash command's argument: the command's suggestions
/// that hold the typed arguments (joined with spaces, lowercased), each run
/// at once when chosen. `/flutter` suggests its subcommands,
/// `/flutter-devices` device kinds, and the VM service commands URI shapes;
/// other commands suggest nothing.
pub fn complete_slash_command_argument(name: &str, args: &Vec<String>) -> (r: Vec<ArgumentCompletion>)
    ensures
        r@.len() == suggestions_matching(
            suggestions_for(name@),
            lowercase(join_seq(crate::json::strings_view(args@), " "@)),
        ).len(),
        forall|i: int|
            0 <= i < r@.len() ==> {
                let c = #[trigger] r@[i];
                &&& c.label@ == suggestions_matching(
                    suggestions_for(name@),
                    lowercase(join_seq(crate::json::strings_view(args@), " "@)),
                )[i]
                &&& c.new_text@ == c.label@
                &&& c.run_command
            },
{
    let joined = join_strings(args, " ");
    let q = to_lowercase(joined.as_str());
    let suggestions = suggestions_exec(name);
    let ghost sv = crate::json::strings_view(suggestions@);
    let mut out: Vec<ArgumentCompletion> = Vec::new();
    let mut i: usize = 0;
    while i < suggestions.len()
        invariant
            i <= suggestions.len(),
            sv == crate::json::strings_view(suggestions@),
            out@.len() == suggestions_matching(sv.subrange(0, i as int), q@).len(),
            forall|k: int|
                0 <= k < out@.len() ==> {
                    let c = #[trigger] out@[k];
                    &&& c.label@ == suggestions_matching(sv.subrange(0, i as int), q@)[k]
                    &&& c.new_text@ == c.label@
                    &&& c.run_command
                },
        decreases suggestions.len() - i,
    {
        assert(sv.subrange(0, i + 1).drop_last() =~= sv.subrange(0, i as int));
        if crate::text::contains(suggestions[i].as_str(), q.as_str()) {
            out.push(
                ArgumentCompletion {
                    label: suggestions[i].clone(),
                    new_text: suggestions[i].clone(),
                    run_command: true,
                },
            );
        }
        i += 1;
    }
    assert(sv.subrange(0, suggestions.len() as int) =~= sv);
    out
}

} // verus!
