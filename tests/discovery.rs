use usbctl::device::{
    device_from_entry, discover, Device, DiscoveryError, Entry, EntryKind, Status,
};

fn entry(port: &str, kind: EntryKind, product: Option<Result<String, String>>, bound: bool) -> Entry {
    Entry {
        path: format!("/sys/bus/usb/devices/{}", port),
        port: port.as_bytes().to_vec(),
        kind,
        product,
        bound,
    }
}

fn mouse() -> Entry {
    entry("1-1", EntryKind::Directory, Some(Ok("Example Mouse\n".to_string())), false)
}

#[test]
fn single_device_is_discovered_offline() {
    let found = device_from_entry(mouse());
    assert_eq!(
        found,
        Some(Ok(Device {
            port: b"1-1".to_vec(),
            name: "Example Mouse".to_string(),
            online: Status::Offline,
        }))
    );
}

#[test]
fn bound_device_is_online() {
    let e = entry("2-1", EntryKind::Directory, Some(Ok("Keyboard".to_string())), true);
    match device_from_entry(e) {
        Some(Ok(d)) => assert_eq!(d.online, Status::Online),
        other => panic!("unexpected {:?}", other),
    }
}

#[test]
fn directory_without_product_is_skipped() {
    let e = entry("usb1", EntryKind::Directory, None, false);
    assert_eq!(device_from_entry(e), None);
}

#[test]
fn non_directory_is_skipped() {
    let e = entry("uevent", EntryKind::NotDirectory, Some(Ok("x".to_string())), true);
    assert_eq!(device_from_entry(e), None);
}

#[test]
fn vanished_entry_is_skipped_silently() {
    let gone = entry("3-1", EntryKind::Vanished, None, false);
    assert_eq!(device_from_entry(gone.clone()), None);
    let all = discover(vec![gone, mouse()]);
    assert_eq!(all.len(), 1);
    assert!(matches!(&all[0], Ok(d) if d.port == b"1-1".to_vec()));
}

#[test]
fn metadata_failure_is_an_error() {
    let e = entry("4-1", EntryKind::Unreadable("permission denied".to_string()), None, false);
    assert_eq!(
        device_from_entry(e),
        Some(Err(DiscoveryError::Metadata {
            path: "/sys/bus/usb/devices/4-1".to_string(),
            reason: "permission denied".to_string(),
        }))
    );
}

#[test]
fn unreadable_product_is_an_error() {
    let e = entry("5-1", EntryKind::Directory, Some(Err("i/o error".to_string())), false);
    assert_eq!(
        device_from_entry(e),
        Some(Err(DiscoveryError::ReadFile {
            path: "/sys/bus/usb/devices/5-1".to_string(),
            reason: "i/o error".to_string(),
        }))
    );
}

#[test]
fn discovery_keeps_order_and_errors() {
    let all = discover(vec![
        entry("1-2", EntryKind::Directory, Some(Ok(" Disk ".to_string())), true),
        entry("x", EntryKind::NotDirectory, None, false),
        entry("1-3", EntryKind::Directory, Some(Err("bad".to_string())), false),
        mouse(),
    ]);
    assert_eq!(all.len(), 3);
    assert_eq!(
        all[0],
        Ok(Device { port: b"1-2".to_vec(), name: "Disk".to_string(), online: Status::Online })
    );
    assert!(matches!(all[1], Err(DiscoveryError::ReadFile { .. })));
    assert!(matches!(&all[2], Ok(d) if d.name == "Example Mouse"));
}

#[test]
fn empty_registry_discovers_nothing() {
    assert!(discover(Vec::new()).is_empty());
}

#[test]
fn name_is_trimmed_on_both_sides() {
    let e = entry("6-1", EntryKind::Directory, Some(Ok("\t  Hub Thing \r\n".to_string())), false);
    match device_from_entry(e) {
        Some(Ok(d)) => assert_eq!(d.name, "Hub Thing"),
        other => panic!("unexpected {:?}", other),
    }
}

#[test]
fn status_from_bool() {
    assert_eq!(Status::from_bool(true), Status::Online);
    assert_eq!(Status::from_bool(false), Status::Offline);
    assert_eq!(Status::Online.as_str(), "online");
    assert_eq!(Status::Offline.as_str(), "offline");
}

#[test]
fn description_pads_the_port() {
    let d = Device { port: b"1-1".to_vec(), name: "Example Mouse".to_string(), online: Status::Offline };
    assert_eq!(d.describe(), "1-1   (offline): Example Mouse");
    let long = Device { port: b"1-10.4".to_vec(), name: "Pad".to_string(), online: Status::Online };
    assert_eq!(long.describe(), "1-10.4 (online): Pad");
}

#[test]
fn description_replaces_invalid_port_bytes() {
    let d = Device { port: vec![0xff, b'1'], name: "N".to_string(), online: Status::Online };
    assert_eq!(d.describe(), "\u{fffd}1    (online): N");
}

#[test]
fn host_is_found_in_any_case() {
    let mk = |n: &str| Device { port: b"1".to_vec(), name: n.to_string(), online: Status::Online };
    assert!(mk("xHCI Host Controller").mentions_host());
    assert!(mk("usb host").mentions_host());
    assert!(mk("GHOST").mentions_host());
    assert!(!mk("Hos t").mentions_host());
    assert!(!mk("Mouse").mentions_host());
}

#[test]
fn find_device_returns_first_match() {
    let a = Device { port: b"1-1".to_vec(), name: "Example Mouse".to_string(), online: Status::Offline };
    let b = Device { port: b"1-2".to_vec(), name: "Mouse Pad".to_string(), online: Status::Online };
    let items = vec![Ok(a.clone()), Ok(b.clone())];
    assert_eq!(usbctl::device::find_device(items.clone(), "Mouse", false), Ok(Some(a)));
    assert_eq!(usbctl::device::find_device(items.clone(), "1-2", true), Ok(Some(b)));
    assert_eq!(usbctl::device::find_device(items, "Keyboard", false), Ok(None));
}

#[test]
fn find_device_stops_at_error_before_match() {
    let a = Device { port: b"1-1".to_vec(), name: "Example Mouse".to_string(), online: Status::Offline };
    let err = DiscoveryError::ReadFile { path: "p".to_string(), reason: "r".to_string() };
    let items = vec![Ok(a.clone()), Err(err.clone()), Ok(a.clone())];
    assert_eq!(usbctl::device::find_device(items.clone(), "1-1", true), Ok(Some(a)));
    assert_eq!(usbctl::device::find_device(items, "Disk", false), Err(err));
}
