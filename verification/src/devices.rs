//! Flutter devices: reading `flutter devices --machine`, filtering by a
//! query, and listing them.

use vstd::prelude::*;
use crate::output::{command_failure_message, failure_message, is_single_section, single_section_output, SlashOutput};
use crate::adapter::opt_view;
use crate::json::{
    bool_member, json_members, member_bool, member_str, members_of, parse_json_text, parsed_json,
    str_member, strings_view, JsonDoc,
};
use crate::text::{
    concat, contains, contains_seq, join_strings, join_seq, lowercase, owned, to_lowercase, trim, trim_str,
};

verus! {

/// A device Flutter can run on.
#[derive(Clone, Debug, PartialEq, Eq)]
pub struct FlutterDevice {
    pub id: String,
    pub name: String,
    pub platform: Option<String>,
    pub emulator: Option<bool>,
    pub category: Option<String>,
}

/// One element of the JSON array `flutter devices --machine` prints, as far
/// as it is read: its string fields `id`, `name`, `platformType`, `category`
/// and its boolean field `emulator`, each when present with that type.
#[derive(Debug)]
pub struct DeviceEntry {
    pub id: Option<String>,
    pub name: Option<String>,
    pub platform_type: Option<String>,
    pub emulator: Option<bool>,
    pub category: Option<String>,
}

/// The entry has both an `id` and a `name`.
pub open spec fn entry_is_complete(e: DeviceEntry) -> bool {
    e.id is Some && e.name is Some
}

/// The error for an entry without an `id`, or else without a `name`.
pub open spec fn entry_error(e: DeviceEntry) -> Seq<char> {
    if e.id is None {
        "Flutter device is missing string field `id`"@
    } else {
        "Flutter device is missing string field `name`"@
    }
}

/// `d` is the device read from `e`.
pub open spec fn device_of_entry(d: FlutterDevice, e: DeviceEntry) -> bool {
    &&& e.id matches Some(i) && d.id@ == i@
    &&& e.name matches Some(n) && d.name@ == n@
    &&& d.platform == e.platform_type
    &&& d.emulator == e.emulator
    &&& d.category == e.category
}

/// The devices of `flutter devices --machine`, in order. Fails at the first
/// entry without an `id` or a `name`.
pub fn parse_flutter_devices(entries: Vec<DeviceEntry>) -> (r: Result<Vec<FlutterDevice>, String>)
    ensures
        r is Ok <==> forall|i: int| 0 <= i < entries@.len() ==> entry_is_complete(#[trigger] entries@[i]),
        r matches Ok(ds) ==> ds@.len() == entries@.len() && forall|i: int|
            0 <= i < ds@.len() ==> device_of_entry(#[trigger] ds@[i], entries@[i]),
        r matches Err(msg) ==> exists|i: int|
            0 <= i < entries@.len() && !entry_is_complete(#[trigger] entries@[i]) && (forall|k: int|
                0 <= k < i ==> entry_is_complete(#[trigger] entries@[k])) && msg@ == entry_error(
                entries@[i],
            ),
{
    let ghost es = entries@;
    let mut entries = entries;
    let mut parsed: Vec<FlutterDevice> = Vec::new();
    let n = entries.len();
    let mut i: usize = 0;
    #[verifier::loop_isolation(false)]
    while i < n
        invariant
            n == es.len(),
            i <= n,
            entries@ =~= es.subrange(i as int, n as int),
            parsed@.len() == i,
            forall|k: int| 0 <= k < i ==> entry_is_complete(#[trigger] es[k]),
            forall|k: int| 0 <= k < i ==> device_of_entry(#[trigger] parsed@[k], es[k]),
        decreases n - i,
    {
        let e = entries.remove(0);
        assert(e == es[i as int]);
        if e.id.is_none() || e.name.is_none() {
            assert(!entry_is_complete(es[i as int]));
            let msg = if e.id.is_none() {
                owned("Flutter device is missing string field `id`")
            } else {
                owned("Flutter device is missing string field `name`")
            };
            assert(msg@ == entry_error(es[i as int]));
            return Err(msg);
        }
        let id = match e.id {
            Some(id) => id,
            None => String::new(),
        };
        let name = match e.name {
            Some(name) => name,
            None => String::new(),
        };
        parsed.push(
            FlutterDevice {
                id,
                name,
                platform: e.platform_type,
                emulator: e.emulator,
                category: e.category,
            },
        );
        i += 1;
    }
    Ok(parsed)
}

/// The entry `e` holds what the JSON text `t` of one element of the devices
/// array gives for its fields.
pub open spec fn entry_reads_item(e: DeviceEntry, t: Seq<char>) -> bool {
    let ms = json_members(t);
    &&& opt_view(e.id) == member_str(ms, "id"@)
    &&& opt_view(e.name) == member_str(ms, "name"@)
    &&& opt_view(e.platform_type) == member_str(ms, "platformType"@)
    &&& e.emulator == member_bool(ms, "emulator"@)
    &&& opt_view(e.category) == member_str(ms, "category"@)
}

/// The element `t` of the devices array has a string `id` and a string `name`.
pub open spec fn item_is_complete(t: Seq<char>) -> bool {
    member_str(json_members(t), "id"@) is Some && member_str(json_members(t), "name"@) is Some
}

/// The error for an element without a string `id`, or else without a string
/// `name`.
pub open spec fn item_error(t: Seq<char>) -> Seq<char> {
    if member_str(json_members(t), "id"@) is None {
        "Flutter device is missing string field `id`"@
    } else {
        "Flutter device is missing string field `name`"@
    }
}

/// `d` is the device that the element `t` of the devices array describes.
pub open spec fn device_of_item(d: FlutterDevice, t: Seq<char>) -> bool {
    let ms = json_members(t);
    &&& member_str(ms, "id"@) == Some(d.id@)
    &&& member_str(ms, "name"@) == Some(d.name@)
    &&& member_str(ms, "platformType"@) == opt_view(d.platform)
    &&& member_bool(ms, "emulator"@) == d.emulator
    &&& member_str(ms, "category"@) == opt_view(d.category)
}

/// The error when the output of `flutter devices --machine` is not JSON.
pub open spec fn invalid_devices_json_error(e: Seq<char>) -> Seq<char> {
    "Invalid flutter devices JSON: "@ + e
}

/// `r` is what `parse_flutter_devices_json` gives for the output `output`:
/// the output must be JSON (see `parsed_json`), a JSON array, and each
/// element must have a string `id` and a string `name`; the first failure is
/// reported.
pub open spec fn devices_json_outcome(r: Result<Vec<FlutterDevice>, String>, output: Seq<char>) -> bool {
    &&& parsed_json(output) matches Err(e) ==> (r matches Err(m) && m@
        == invalid_devices_json_error(e@))
    &&& parsed_json(output) matches Ok(JsonDoc { items: None, .. }) ==> (r matches Err(m) && m@
        == "Expected flutter devices output to be a JSON array"@)
    &&& parsed_json(output) matches Ok(JsonDoc { items: Some(its), .. }) ==> ({
            let ts = strings_view(its@);
            &&& (r is Ok <==> forall|i: int| 0 <= i < ts.len() ==> item_is_complete(#[trigger] ts[i]))
            &&& (r matches Ok(ds) ==> ds@.len() == ts.len() && forall|i: int|
                0 <= i < ds@.len() ==> device_of_item(#[trigger] ds@[i], ts[i]))
            &&& (r matches Err(m) ==> exists|i: int|
                0 <= i < ts.len() && !item_is_complete(#[trigger] ts[i]) && (forall|k: int|
                    0 <= k < i ==> item_is_complete(#[trigger] ts[k])) && m@ == item_error(ts[i]))
        })
}

/// The devices that the output of `flutter devices --machine` lists, in
/// order (see `devices_json_outcome`).
pub fn parse_flutter_devices_json(output: &str) -> (r: Result<Vec<FlutterDevice>, String>)
    ensures
        devices_json_outcome(r, output@),
{
    let items = match parse_json_text(output) {
        Err(e) => return Err(concat("Invalid flutter devices JSON: ", e.as_str())),
        Ok(JsonDoc { items: None, .. }) => {
            return Err(owned("Expected flutter devices output to be a JSON array"));
        },
        Ok(JsonDoc { items: Some(its), .. }) => its,
    };
    let ghost ts = strings_view(items@);
    let mut entries: Vec<DeviceEntry> = Vec::new();
    let mut i: usize = 0;
    while i < items.len()
        invariant
            i <= items.len(),
            ts == strings_view(items@),
            entries@.len() == i,
            forall|k: int| 0 <= k < i ==> entry_reads_item(#[trigger] entries@[k], ts[k]),
        decreases items.len() - i,
    {
        let ms = members_of(items[i].as_str());
        entries.push(
            DeviceEntry {
                id: str_member(&ms, "id"),
                name: str_member(&ms, "name"),
                platform_type: str_member(&ms, "platformType"),
                emulator: bool_member(&ms, "emulator"),
                category: str_member(&ms, "category"),
            },
        );
        i += 1;
    }
    let ghost es = entries@;
    let r = parse_flutter_devices(entries);
    proof {
        assert forall|k: int| 0 <= k < ts.len() implies (entry_is_complete(#[trigger] es[k])
            <==> item_is_complete(ts[k])) && entry_error(es[k]) == item_error(ts[k]) by {
            assert(entry_reads_item(es[k], ts[k]));
        }
        if let Ok(ds) = &r {
            assert forall|k: int| 0 <= k < ds@.len() implies device_of_item(#[trigger] ds@[k], ts[k]) by {
                assert(device_of_entry(ds@[k], es[k]));
                assert(entry_reads_item(es[k], ts[k]));
            }
        }
        if r is Ok {
            assert forall|k: int| 0 <= k < ts.len() implies item_is_complete(#[trigger] ts[k]) by {
                assert(entry_is_complete(es[k]));
            }
        } else {
            if forall|k: int| 0 <= k < ts.len() ==> item_is_complete(#[trigger] ts[k]) {
                assert forall|k: int| 0 <= k < es.len() implies entry_is_complete(#[trigger] es[k]) by {
                    assert(item_is_complete(ts[k]));
                }
            }
        }
        if let Err(m) = &r {
            let j = choose|j: int|
                0 <= j < es.len() && !entry_is_complete(#[trigger] es[j]) && (forall|k: int|
                    0 <= k < j ==> entry_is_complete(#[trigger] es[k])) && m@ == entry_error(es[j]);
            assert(!item_is_complete(ts[j]));
            assert forall|k: int| 0 <= k < j implies item_is_complete(#[trigger] ts[k]) by {
                assert(entry_is_complete(es[k]));
            }
            assert(m@ == item_error(ts[j]));
        }
    }
    r
}

/// The devices `flutter devices --machine` lists, given how it exited
/// (`status`, `None` when a signal ended it) and what it printed: when it
/// failed, the error of `devices_failure_message`; else its output read as
/// `parse_flutter_devices_json` reads it.
pub fn flutter_devices_outcome(status: Option<i32>, stdout: &str, stderr: &str) -> (r: Result<
    Vec<FlutterDevice>,
    String,
>)
    ensures
        status != Some(0i32) ==> (r matches Err(m) && m@ == failure_message(
            "Failed to list Flutter devices"@,
            stderr@,
            stdout@,
        )),
        status == Some(0i32) ==> devices_json_outcome(r, stdout@),
{
    if status != Some(0i32) {
        return Err(devices_failure_message(stderr, stdout));
    }
    parse_flutter_devices_json(stdout)
}

/// `field`, lowercased, holds the query.
pub open spec fn field_matches(field: Seq<char>, q: Seq<char>) -> bool {
    contains_seq(lowercase(field), q)
}

/// The device matches the (lowercased, trimmed) query by id, name, platform
/// or category.
pub open spec fn device_matches(d: FlutterDevice, q: Seq<char>) -> bool {
    ||| field_matches(d.id@, q)
    ||| field_matches(d.name@, q)
    ||| (d.platform matches Some(p) && field_matches(p@, q))
    ||| (d.category matches Some(c) && field_matches(c@, q))
}

/// The devices that match the query, in order.
pub open spec fn matching_devices(ds: Seq<FlutterDevice>, q: Seq<char>) -> Seq<FlutterDevice>
    decreases ds.len(),
{
    if ds.len() == 0 {
        Seq::empty()
    } else if device_matches(ds.last(), q) {
        matching_devices(ds.drop_last(), q).push(ds.last())
    } else {
        matching_devices(ds.drop_last(), q)
    }
}

/// Every device a filter keeps matches its query.
pub proof fn law_filtered_devices_match(ds: Seq<FlutterDevice>, q: Seq<char>)
    ensures
        forall|i: int|
            0 <= i < matching_devices(ds, q).len() ==> device_matches(
                #[trigger] matching_devices(ds, q)[i],
                q,
            ),
    decreases ds.len(),
{
    if ds.len() > 0 {
        law_filtered_devices_match(ds.drop_last(), q);
        let m = matching_devices(ds, q);
        let p = matching_devices(ds.drop_last(), q);
        assert forall|i: int| 0 <= i < m.len() implies device_matches(#[trigger] m[i], q) by {
            if i < p.len() {
                assert(m[i] == p[i]);
            }
        }
    }
}

/// Law: a filter keeps exactly the devices whose id, name, platform or
/// category, lowercased, holds the query, in their order: every device so
/// matched is kept, and every kept device is one of the devices so matched.
pub proof fn law_filter_keeps_matching_fields(ds: Seq<FlutterDevice>, q: Seq<char>)
    ensures
        forall|i: int|
            0 <= i < ds.len() && ({
                ||| contains_seq(lowercase(ds[i].id@), q)
                ||| contains_seq(lowercase(ds[i].name@), q)
                ||| (ds[i].platform matches Some(p) && contains_seq(lowercase(p@), q))
                ||| (ds[i].category matches Some(c) && contains_seq(lowercase(c@), q))
            }) ==> matching_devices(ds, q).contains(#[trigger] ds[i]),
        forall|j: int|
            0 <= j < matching_devices(ds, q).len() ==> {
                let d = #[trigger] matching_devices(ds, q)[j];
                &&& ds.contains(d)
                &&& {
                    ||| contains_seq(lowercase(d.id@), q)
                    ||| contains_seq(lowercase(d.name@), q)
                    ||| (d.platform matches Some(p) && contains_seq(lowercase(p@), q))
                    ||| (d.category matches Some(c) && contains_seq(lowercase(c@), q))
                }
            },
    decreases ds.len(),
{
    if ds.len() > 0 {
        let init = ds.drop_last();
        law_filter_keeps_matching_fields(init, q);
        let m = matching_devices(ds, q);
        let p = matching_devices(init, q);
        assert forall|i: int|
            0 <= i < ds.len() && ({
                ||| contains_seq(lowercase(ds[i].id@), q)
                ||| contains_seq(lowercase(ds[i].name@), q)
                ||| (ds[i].platform matches Some(pl) && contains_seq(lowercase(pl@), q))
                ||| (ds[i].category matches Some(c) && contains_seq(lowercase(c@), q))
            }) implies m.contains(#[trigger] ds[i]) by {
            if i == ds.len() - 1 {
                assert(device_matches(ds[i], q));
                assert(m[m.len() - 1] == ds[i]);
            } else {
                assert(init[i] == ds[i]);
                assert(p.contains(init[i]));
                let k = choose|k: int| 0 <= k < p.len() && p[k] == init[i];
                assert(m[k] == p[k]);
            }
        }
        assert forall|j: int| 0 <= j < m.len() implies {
            let d = #[trigger] m[j];
            &&& ds.contains(d)
            &&& {
                ||| contains_seq(lowercase(d.id@), q)
                ||| contains_seq(lowercase(d.name@), q)
                ||| (d.platform matches Some(pl) && contains_seq(lowercase(pl@), q))
                ||| (d.category matches Some(c) && contains_seq(lowercase(c@), q))
            }
        } by {
            if j < p.len() {
                assert(m[j] == p[j]);
                assert(init.contains(p[j]));
                let k = choose|k: int| 0 <= k < init.len() && init[k] == p[j];
                assert(ds[k] == init[k]);
            } else {
                assert(m[j] == ds.last());
                assert(device_matches(ds.last(), q));
                assert(ds[ds.len() - 1] == ds.last());
            }
        }
    }
}

/// Filtering the devices a filter kept, with the same query, keeps them all.
pub proof fn law_filter_idempotent(ds: Seq<FlutterDevice>, q: Seq<char>)
    ensures
        matching_devices(matching_devices(ds, q), q) == matching_devices(ds, q),
    decreases ds.len(),
{
    if ds.len() > 0 {
        law_filter_idempotent(ds.drop_last(), q);
        let m = matching_devices(ds, q);
        if device_matches(ds.last(), q) {
            assert(m.drop_last() =~= matching_devices(ds.drop_last(), q));
            assert(m.last() == ds.last());
        }
    }
}

/// The query a filter uses: the given one, trimmed and lowercased.
pub open spec fn device_query(query: Seq<char>) -> Seq<char> {
    lowercase(trim(query))
}

/// The devices whose id, name, platform or category holds the query (trimmed,
/// and compared in lowercase), in order; all of them for a blank query.
pub fn filter_flutter_devices(devices: Vec<FlutterDevice>, query: &str) -> (r: Vec<FlutterDevice>)
    ensures
        device_query(query@).len() == 0 ==> r@ == devices@,
        device_query(query@).len() > 0 ==> r@ == matching_devices(devices@, device_query(query@)),
{
    let trimmed = trim_str(query);
    let q = to_lowercase(trimmed.as_str());
    if q.as_str().unicode_len() == 0 {
        return devices;
    }
    let ghost ds = devices@;
    let n = devices.len();
    let mut devices = devices;
    let mut out: Vec<FlutterDevice> = Vec::new();
    let mut i: usize = 0;
    while i < n
        invariant
            n == ds.len(),
            i <= n,
            q@ == device_query(query@),
            devices@ =~= ds.subrange(i as int, n as int),
            out@ == matching_devices(ds.subrange(0, i as int), q@),
        decreases n - i,
    {
        let d = devices.remove(0);
        assert(d == ds[i as int]);
        assert(ds.subrange(0, i + 1).drop_last() =~= ds.subrange(0, i as int));
        if device_matches_exec(&d, q.as_str()) {
            out.push(d);
        }
        i += 1;
    }
    assert(ds.subrange(0, n as int) =~= ds);
    out
}

/// Whether the device matches the query.
fn device_matches_exec(d: &FlutterDevice, q: &str) -> (r: bool)
    ensures
        r == device_matches(*d, q@),
{
    if contains(to_lowercase(d.id.as_str()).as_str(), q) {
        return true;
    }
    if contains(to_lowercase(d.name.as_str()).as_str(), q) {
        return true;
    }
    if let Some(p) = &d.platform {
        if contains(to_lowercase(p.as_str()).as_str(), q) {
            return true;
        }
    }
    if let Some(c) = &d.category {
        if contains(to_lowercase(c.as_str()).as_str(), q) {
            return true;
        }
    }
    false
}

/// The line listing a device: `- Name (`id`)`, then its platform, category
/// and `emulator` when known, separated by ` | `.
pub open spec fn device_line(d: FlutterDevice) -> Seq<char> {
    let first = d.name@ + " (`"@ + d.id@ + "`)"@;
    let with_platform = match d.platform {
        Some(p) => seq![first, p@],
        None => seq![first],
    };
    let with_category = match d.category {
        Some(c) => with_platform.push(c@),
        None => with_platform,
    };
    let parts = if d.emulator == Some(true) {
        with_category.push("emulator"@)
    } else {
        with_category
    };
    "- "@ + join_seq(parts, " | "@)
}

/// The text listing the devices, one line each.
pub open spec fn devices_text(ds: Seq<FlutterDevice>) -> Seq<char> {
    if ds.len() == 0 {
        "No Flutter devices found."@
    } else {
        join_seq(ds.map_values(|d: FlutterDevice| device_line(d)), "\n"@)
    }
}

/// The line listing a device.
fn device_line_exec(d: &FlutterDevice) -> (r: String)
    ensures
        r@ == device_line(*d),
{
    let mut first = d.name.clone();
    first.append(" (`");
    first.append(d.id.as_str());
    first.append("`)");
    let mut parts: Vec<String> = Vec::new();
    parts.push(first);
    if let Some(p) = &d.platform {
        parts.push(p.clone());
    }
    if let Some(c) = &d.category {
        parts.push(c.clone());
    }
    if let Some(true) = d.emulator {
        parts.push(owned("emulator"));
    }
    let joined = join_strings(&parts, " | ");
    let mut r = owned("- ");
    r.append(joined.as_str());
    proof {
        let pv = parts@.map_values(|p: String| p@);
        let first_v = d.name@ + " (`"@ + d.id@ + "`)"@;
        let wp = match &d.platform {
            Some(p) => seq![first_v, p@],
            None => seq![first_v],
        };
        let wc = match &d.category {
            Some(c) => wp.push(c@),
            None => wp,
        };
        let ps = if d.emulator == Some(true) {
            wc.push("emulator"@)
        } else {
            wc
        };
        assert(pv =~= ps);
    }
    r
}

/// The devices listed one per line, in a section labelled `Flutter Devices`;
/// `No Flutter devices found.` when there are none.
pub fn format_flutter_devices_output(devices: &Vec<FlutterDevice>) -> (o: SlashOutput)
    ensures
        is_single_section(o, devices_text(devices@), "Flutter Devices"@),
{
    if devices.len() == 0 {
        return single_section_output(owned("No Flutter devices found."), "Flutter Devices");
    }
    let mut lines: Vec<String> = Vec::new();
    let mut i: usize = 0;
    while i < devices.len()
        invariant
            i <= devices.len(),
            lines@.len() == i,
            forall|k: int| 0 <= k < i ==> #[trigger] lines@[k]@ == device_line(devices@[k]),
        decreases devices.len() - i,
    {
        lines.push(device_line_exec(&devices[i]));
        i += 1;
    }
    let text = join_strings(&lines, "\n");
    assert(lines@.map_values(|p: String| p@) =~= devices@.map_values(
        |d: FlutterDevice| device_line(d),
    ));
    single_section_output(text, "Flutter Devices")
}

/// The message when `flutter devices --machine` fails (see
/// `failure_message`).
pub fn devices_failure_message(stderr: &str, stdout: &str) -> (r: String)
    ensures
        r@ == failure_message("Failed to list Flutter devices"@, stderr@, stdout@),
{
    command_failure_message("Failed to list Flutter devices", stderr, stdout)
}

} // verus!
