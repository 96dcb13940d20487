use clatune::devices::{get_devices, ClatuneDevice, FoundDevice};

fn found(name: Result<&str, &str>, id: Result<&str, &str>, channels: Option<u16>) -> FoundDevice {
    FoundDevice {
        name: name.map(|s| s.to_string()).map_err(|s| s.to_string()),
        id: id.map(|s| s.to_string()).map_err(|s| s.to_string()),
        channels,
    }
}

fn text(d: &ClatuneDevice) -> (String, String) {
    (d.id.clone(), d.name.clone())
}

fn t(id: &str, name: &str) -> (String, String) {
    (id.to_string(), name.to_string())
}

#[test]
fn devices_are_listed_with_channels_in_order() {
    let list = vec![
        found(Ok("USB Mic"), Ok("alsa:hw:1,0"), Some(1)),
        found(Ok("Built-in"), Ok("alsa:hw:0,0"), Some(2)),
        found(Ok("Loopback"), Ok("alsa:lo"), None),
    ];
    let (devices, default) = get_devices(&list, &None).unwrap();
    let shown: Vec<_> = devices.iter().map(text).collect();
    assert_eq!(
        shown,
        vec![
            t("alsa:hw:1,0", "USB Mic (1ch)"),
            t("alsa:hw:0,0", "Built-in (2ch)"),
            t("alsa:lo", "Loopback"),
        ]
    );
    assert_eq!(text(&default), t("alsa:hw:1,0", "USB Mic (1ch)"));
}

#[test]
fn channel_counts_are_written_in_decimal() {
    let list = vec![found(Ok("Interface"), Ok("x:1"), Some(65535)), found(Ok("Zero"), Ok("x:2"), Some(0))];
    let (devices, _) = get_devices(&list, &None).unwrap();
    assert_eq!(devices[0].name, "Interface (65535ch)");
    assert_eq!(devices[1].name, "Zero (0ch)");
}

#[test]
fn unknown_and_unreadable_devices_are_skipped() {
    let list = vec![
        found(Ok("unknown"), Ok("a:1"), Some(2)),
        found(Err("no description"), Ok("a:2"), Some(2)),
        found(Ok("unknown"), Err("no id"), None),
        found(Ok("Mic"), Ok("a:3"), None),
        found(Ok("Unknown"), Ok("a:4"), None),
    ];
    let (devices, _) = get_devices(&list, &None).unwrap();
    let shown: Vec<_> = devices.iter().map(text).collect();
    assert_eq!(shown, vec![t("a:3", "Mic"), t("a:4", "Unknown")]);
}

#[test]
fn unreadable_identifier_of_an_offered_device_is_an_error() {
    let list = vec![
        found(Ok("Mic"), Ok("a:1"), None),
        found(Ok("Broken"), Err("device disconnected"), None),
        found(Ok("Later"), Err("never reached"), None),
    ];
    assert_eq!(get_devices(&list, &None).unwrap_err(), "device disconnected");
}

#[test]
fn no_offered_device_is_an_error() {
    assert_eq!(get_devices(&vec![], &None).unwrap_err(), "No input devices found");
    let list = vec![found(Ok("unknown"), Ok("a:1"), None), found(Err("x"), Ok("a:2"), None)];
    let default = Some(found(Ok("Mic"), Ok("a:9"), None));
    assert_eq!(get_devices(&list, &default).unwrap_err(), "No input devices found");
}

#[test]
fn host_default_device_is_the_default() {
    let list = vec![found(Ok("Mic"), Ok("a:1"), None), found(Ok("Line"), Ok("a:2"), Some(2))];
    let default = Some(found(Ok("Line"), Ok("a:2"), Some(2)));
    let (devices, chosen) = get_devices(&list, &default).unwrap();
    assert_eq!(devices.len(), 2);
    assert_eq!(text(&chosen), t("a:2", "Line (2ch)"));
}

#[test]
fn host_default_named_unknown_is_still_the_default() {
    let list = vec![found(Ok("Mic"), Ok("a:1"), None)];
    let default = Some(found(Ok("unknown"), Ok("a:0"), Some(1)));
    let (_, chosen) = get_devices(&list, &default).unwrap();
    assert_eq!(text(&chosen), t("a:0", "unknown (1ch)"));
}

#[test]
fn unreadable_host_default_is_an_error() {
    let list = vec![found(Ok("Mic"), Ok("a:1"), None)];
    let default = Some(found(Err("no description"), Err("no id"), None));
    assert_eq!(get_devices(&list, &default).unwrap_err(), "no description");
    let default = Some(found(Ok("Mic"), Err("no id"), None));
    assert_eq!(get_devices(&list, &default).unwrap_err(), "no id");
}

#[test]
fn device_clone_and_default() {
    let d = ClatuneDevice { id: "a:1".to_string(), name: "Mic".to_string() };
    let c = d.clone();
    assert_eq!(text(&c), t("a:1", "Mic"));
    let empty = ClatuneDevice::default();
    assert_eq!(text(&empty), t("", ""));
}
