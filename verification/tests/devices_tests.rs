use zed_dart::devices::{
    filter_flutter_devices, flutter_devices_outcome, format_flutter_devices_output,
    parse_flutter_devices, parse_flutter_devices_json, DeviceEntry, FlutterDevice,
};

fn device(id: &str, name: &str, platform: Option<&str>, emulator: Option<bool>, category: Option<&str>) -> FlutterDevice {
    FlutterDevice {
        id: id.to_string(),
        name: name.to_string(),
        platform: platform.map(|s| s.to_string()),
        emulator,
        category: category.map(|s| s.to_string()),
    }
}

fn entry(id: Option<&str>, name: Option<&str>, platform: Option<&str>, emulator: Option<bool>, category: Option<&str>) -> DeviceEntry {
    DeviceEntry {
        id: id.map(|s| s.to_string()),
        name: name.map(|s| s.to_string()),
        platform_type: platform.map(|s| s.to_string()),
        emulator,
        category: category.map(|s| s.to_string()),
    }
}

fn chrome_and_macos() -> Vec<FlutterDevice> {
    vec![
        device("chrome", "Chrome", Some("web"), Some(false), Some("web")),
        device("macos", "macOS", Some("desktop"), Some(false), Some("desktop")),
    ]
}

#[test]
fn parse_flutter_devices_json_parses_machine_output() {
    let devices = parse_flutter_devices_json(
        r#"[
            {
                "id":"chrome",
                "name":"Chrome",
                "platformType":"web",
                "emulator":false,
                "category":"web"
            },
            {
                "id":"macos",
                "name":"macOS",
                "platformType":"desktop",
                "emulator":false,
                "category":"desktop"
            }
        ]"#,
    )
    .expect("devices");

    assert_eq!(devices, chrome_and_macos());
}

#[test]
fn parse_flutter_devices_json_errors() {
    assert!(parse_flutter_devices_json("[").unwrap_err().starts_with("Invalid flutter devices JSON: "));
    assert_eq!(
        parse_flutter_devices_json(r#"{"id":"x"}"#).unwrap_err(),
        "Expected flutter devices output to be a JSON array"
    );
    assert_eq!(
        parse_flutter_devices_json(r#"[{"id":"a","name":"A"},{"id":"b","name":7},3]"#).unwrap_err(),
        "Flutter device is missing string field `name`"
    );
    assert_eq!(
        parse_flutter_devices_json("[3]").unwrap_err(),
        "Flutter device is missing string field `id`"
    );
    assert_eq!(
        parse_flutter_devices_json(r#"[{"id":"a","name":"A","emulator":"no","platformType":1}]"#).expect("devices"),
        vec![device("a", "A", None, None, None)]
    );
    assert_eq!(parse_flutter_devices_json("[]").expect("devices"), Vec::<FlutterDevice>::new());
}

#[test]
fn flutter_devices_outcome_uses_the_exit_status() {
    assert_eq!(
        flutter_devices_outcome(Some(1), "[]", " no devices tool \n").unwrap_err(),
        "Failed to list Flutter devices: no devices tool"
    );
    assert_eq!(flutter_devices_outcome(None, "", "").unwrap_err(), "Failed to list Flutter devices");
    assert_eq!(flutter_devices_outcome(Some(0), "[]", "warning").expect("devices"), Vec::<FlutterDevice>::new());
}

#[test]
fn parse_flutter_devices_reports_the_first_incomplete_entry() {
    let missing_name = parse_flutter_devices(vec![
        entry(Some("chrome"), Some("Chrome"), None, None, None),
        entry(Some("macos"), None, None, None, None),
        entry(None, Some("Linux"), None, None, None),
    ]);
    assert_eq!(missing_name.unwrap_err(), "Flutter device is missing string field `name`");

    let missing_id = parse_flutter_devices(vec![entry(None, None, None, None, None)]);
    assert_eq!(missing_id.unwrap_err(), "Flutter device is missing string field `id`");

    assert_eq!(parse_flutter_devices(Vec::new()).expect("devices"), Vec::<FlutterDevice>::new());
}

#[test]
fn filter_flutter_devices_matches_id_and_name() {
    let devices = chrome_and_macos();

    assert_eq!(filter_flutter_devices(devices.clone(), "chrome").len(), 1);
    assert_eq!(filter_flutter_devices(devices.clone(), "desktop").len(), 1);
    assert_eq!(filter_flutter_devices(devices, "").len(), 2);
}

#[test]
fn filter_flutter_devices_lowercases_and_trims_the_query() {
    let devices = chrome_and_macos();
    let found = filter_flutter_devices(devices.clone(), "  MACOS ");
    assert_eq!(found, vec![devices[1].clone()]);
    let by_name = filter_flutter_devices(devices.clone(), "os");
    assert_eq!(by_name, vec![devices[1].clone()]);
    assert!(filter_flutter_devices(devices.clone(), "android").is_empty());
    assert_eq!(filter_flutter_devices(devices.clone(), "   "), devices);
}

#[test]
fn filtering_twice_with_one_query_changes_nothing() {
    let once = filter_flutter_devices(chrome_and_macos(), "WEB");
    let twice = filter_flutter_devices(once.clone(), "WEB");
    assert_eq!(once, twice);
}

#[test]
fn format_flutter_devices_output_lists_devices() {
    let output = format_flutter_devices_output(&vec![device(
        "chrome",
        "Chrome",
        Some("web"),
        Some(false),
        Some("web"),
    )]);

    assert!(output.text.contains("Chrome"));
    assert!(output.text.contains("`chrome`"));
    assert_eq!(output.sections.len(), 1);
    assert_eq!(output.sections[0].label, "Flutter Devices");
}

#[test]
fn format_flutter_devices_output_exact_text() {
    let output = format_flutter_devices_output(&vec![
        device("emulator-5554", "Pixel 7", Some("android-arm64"), Some(true), Some("mobile")),
        device("linux", "Linux", None, None, None),
    ]);
    let text = "- Pixel 7 (`emulator-5554`) | android-arm64 | mobile | emulator\n- Linux (`linux`)";
    assert_eq!(output.text, text);
    assert_eq!(output.sections[0].start, 0);
    assert_eq!(output.sections[0].end, text.len());

    let empty = format_flutter_devices_output(&Vec::new());
    assert_eq!(empty.text, "No Flutter devices found.");
    assert_eq!(empty.sections[0].end, "No Flutter devices found.".len());
}
