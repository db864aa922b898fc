use probe_finder::{
    contains_chars, enumerate, find_volume, has_prefix, is_daplink_volume, lookup, push_hex_nonzero,
    search, volume_holds_serial, Device, DeviceFilter, Family, MountedVolume, Probe, UsbDevice,
};

fn record(vendor_id: u16, product_id: u16, serial: &str, location_id: Option<i64>) -> UsbDevice {
    UsbDevice {
        vendor_id,
        product_id,
        vendor_string: "Vendor".to_string(),
        product_string: "Product".to_string(),
        serial_number: serial.to_string(),
        location_id,
    }
}

fn volume(name: &str, details: Option<&str>) -> MountedVolume {
    MountedVolume { name: name.to_string(), details: details.map(|d| d.to_string()) }
}

fn family_of(p: &Probe) -> Family {
    match p {
        Probe::Unknown(_) => Family::Unknown,
        Probe::JLink(_) => Family::JLink,
        Probe::StLinkV2(_) => Family::StLinkV2,
        Probe::StLinkV21(_) => Family::StLinkV21,
        Probe::TiIcdi(_) => Family::TiIcdi,
        Probe::DapLink(_) => Family::DapLink,
    }
}

#[test]
fn jlink_connection_string() {
    let p = lookup(record(0x1366, 0x0101, "000123456789", None));
    assert_eq!(family_of(&p), Family::JLink);
    assert_eq!(p.device_type(), Some("JLink"));
    assert_eq!(p.openocd_serial(), Some("jlink_serial 000123456789".to_string()));
    assert!(!p.is_unknown());
}

#[test]
fn stlink_v21_serial_path_from_location() {
    let p = lookup(record(0x0483, 0x374b, "abc", Some(0x1a03)));
    assert_eq!(family_of(&p), Family::StLinkV21);
    assert_eq!(p.serial_path(), Some("/dev/cu.usbmodem1a33".to_string()));
    assert_eq!(p.openocd_serial(), Some("hla_serial abc".to_string()));
}

#[test]
fn unknown_device_has_no_capabilities() {
    let p = lookup(record(0x9999, 0x9999, "123", Some(5)));
    assert_eq!(family_of(&p), Family::Unknown);
    assert!(p.is_unknown());
    assert_eq!(p.device_type(), None);
    assert_eq!(p.serial_path(), None);
    assert_eq!(p.openocd_serial(), None);
    assert_eq!(p.msd_path(&vec![volume("DAPLINK", Some("123"))]), None);
    let kept = search(vec![p], &DeviceFilter::new(false, None));
    assert!(kept.is_empty());
}

#[test]
fn daplink_volume_found_by_serial() {
    let volumes = vec![
        volume("DAPLINK_A", Some("Unique ID: ABC123\n")),
        volume("DAPLINK_B", Some("Unique ID: XYZ999\n")),
    ];
    let p = lookup(record(0x0d28, 0x0204, "XYZ999", None));
    assert_eq!(p.msd_path(&volumes), Some("DAPLINK_B".to_string()));
    let q = lookup(record(0x0d28, 0x0204, "NOPE00", None));
    assert_eq!(q.msd_path(&volumes), None);
}

#[test]
fn unreadable_volume_is_skipped() {
    let volumes = vec![
        volume("DAPLINK_A", None),
        volume("OTHER", Some("XYZ999")),
        volume("DAPLINK_C", Some("")),
        volume("DAPLINK_D", Some("serial XYZ999")),
    ];
    assert_eq!(find_volume("XYZ999", &volumes), Some(3));
    let p = lookup(record(0x03eb, 0x2157, "XYZ999", None));
    assert_eq!(p.msd_path(&volumes), Some("DAPLINK_D".to_string()));
}

#[test]
fn no_daplink_volume_means_not_found() {
    let volumes = vec![volume("USB_STICK", Some("XYZ999"))];
    assert_eq!(find_volume("XYZ999", &volumes), None);
    assert_eq!(find_volume("XYZ999", &vec![]), None);
}

#[test]
fn only_daplink_has_a_volume() {
    let volumes = vec![volume("DAPLINK", Some("S1"))];
    assert_eq!(lookup(record(0x1366, 0x0105, "S1", None)).msd_path(&volumes), None);
    assert_eq!(lookup(record(0x0d28, 0x0204, "S1", None)).msd_path(&volumes), Some("DAPLINK".to_string()));
}

#[test]
fn classification_table() {
    let rows = [
        (0x0d28, 0x0204, Family::DapLink),
        (0x03eb, 0x2157, Family::DapLink),
        (0x0483, 0x3748, Family::StLinkV2),
        (0x0483, 0x374b, Family::StLinkV21),
        (0x1366, 0x0101, Family::JLink),
        (0x1366, 0x0105, Family::JLink),
        (0x1cbe, 0x00fd, Family::TiIcdi),
        (0x0d28, 0x2157, Family::Unknown),
        (0x0000, 0x0000, Family::Unknown),
        (0xffff, 0xffff, Family::Unknown),
    ];
    for (v, p, f) in rows {
        assert_eq!(family_of(&lookup(record(v, p, "s", None))), f);
        assert_eq!(family_of(&lookup(record(v, p, "other", Some(9)))), f);
    }
}

#[test]
fn device_type_labels() {
    assert_eq!(lookup(record(0x0483, 0x3748, "s", None)).device_type(), Some("STLinkV2"));
    assert_eq!(lookup(record(0x0483, 0x374b, "s", None)).device_type(), Some("STLinkV21"));
    assert_eq!(lookup(record(0x1cbe, 0x00fd, "s", None)).device_type(), Some("TI-ICDI"));
    assert_eq!(lookup(record(0x0d28, 0x0204, "s", None)).device_type(), Some("DAPLink"));
}

#[test]
fn debugger_arguments_per_family() {
    assert_eq!(lookup(record(0x0483, 0x3748, "S", None)).openocd_serial(), Some("hla_serial S".to_string()));
    assert_eq!(lookup(record(0x1cbe, 0x00fd, "S", None)).openocd_serial(), Some("hla_serial S".to_string()));
    assert_eq!(lookup(record(0x03eb, 0x2157, "S", None)).openocd_serial(), Some("cmsis_dap_serial S".to_string()));
    assert_eq!(lookup(record(0x1366, 0x0105, "", None)).openocd_serial(), Some("jlink_serial ".to_string()));
}

#[test]
fn serial_paths_per_family() {
    assert_eq!(lookup(record(0x1366, 0x0101, "s", Some(0x14200000))).serial_path(), Some("/dev/cu.usbmodem1421".to_string()));
    assert_eq!(lookup(record(0x0d28, 0x0204, "s", Some(0xfa130))).serial_path(), Some("/dev/cu.usbmodemfa132".to_string()));
    assert_eq!(lookup(record(0x0d28, 0x0204, "s", None)).serial_path(), Some("/dev/cu.usbmodem2".to_string()));
    assert_eq!(lookup(record(0x1366, 0x0101, "s", Some(-1))).serial_path(), Some("/dev/cu.usbmodemffffffffffffffff1".to_string()));
    assert_eq!(lookup(record(0x0483, 0x3748, "s", Some(0x1a03))).serial_path(), None);
}

#[test]
fn ti_icdi_serial_path_uses_serial_prefix() {
    let p = lookup(record(0x1cbe, 0x00fd, "0E2034A5B", Some(0x1a03)));
    assert_eq!(p.serial_path(), Some("/dev/cu.usbmodem0E2034A1".to_string()));
    let exact = lookup(record(0x1cbe, 0x00fd, "1234567", None));
    assert_eq!(exact.serial_path(), Some("/dev/cu.usbmodem12345671".to_string()));
}

#[test]
fn ti_icdi_short_serial_has_no_path() {
    let p = lookup(record(0x1cbe, 0x00fd, "123456", None));
    assert_eq!(p.serial_path(), None);
    let empty = lookup(record(0x1cbe, 0x00fd, "", None));
    assert_eq!(empty.serial_path(), None);
}

#[test]
fn fingerprint_is_sha1_of_concatenation() {
    let u = UsbDevice {
        vendor_id: 1,
        product_id: 2,
        vendor_string: "Hello".to_string(),
        product_string: " World".to_string(),
        serial_number: "!".to_string(),
        location_id: None,
    };
    assert_eq!(u.hash(), "2ef7bde608ce5404e97d5f042f95f89f1c232871");
    let empty = UsbDevice {
        vendor_id: 1,
        product_id: 2,
        vendor_string: String::new(),
        product_string: String::new(),
        serial_number: String::new(),
        location_id: None,
    };
    assert_eq!(empty.hash(), "da39a3ee5e6b4b0d3255bfef95601890afd80709");
}

#[test]
fn fingerprint_depends_on_strings_only() {
    let a = record(0x1366, 0x0101, "SER1", Some(1));
    let b = record(0x0483, 0x3748, "SER1", None);
    let c = record(0x1366, 0x0101, "SER2", Some(1));
    assert_eq!(a.hash(), b.hash());
    assert_ne!(a.hash(), c.hash());
    let pa = lookup(a);
    assert_eq!(pa.hash(), pa.usb().hash());
    assert_eq!(pa.hash().len(), 40);
}

#[test]
fn enumerate_keeps_order() {
    let probes = enumerate(vec![
        record(0x9999, 0x0001, "u", None),
        record(0x1366, 0x0101, "j", None),
        record(0x0d28, 0x0204, "d", None),
    ]);
    let families: Vec<Family> = probes.iter().map(family_of).collect();
    assert_eq!(families, vec![Family::Unknown, Family::JLink, Family::DapLink]);
    assert_eq!(probes[1].usb().serial_number, "j");
}

fn sample() -> Vec<Probe> {
    enumerate(vec![
        record(0x1366, 0x0101, "J1", None),
        record(0x9999, 0x9999, "U1", None),
        record(0x0483, 0x3748, "S1", None),
        record(0x9999, 0x0001, "U2", None),
    ])
}

fn serials(ps: &[Probe]) -> Vec<String> {
    ps.iter().map(|p| p.usb().serial_number.clone()).collect()
}

#[test]
fn search_default_drops_unknown() {
    let kept = search(sample(), &DeviceFilter::new(false, None));
    assert_eq!(serials(&kept), vec!["J1", "S1"]);
    assert!(kept.iter().all(|p| !p.is_unknown()));
}

#[test]
fn search_all_keeps_everything_in_order() {
    let kept = search(sample(), &DeviceFilter::new(true, None));
    assert_eq!(serials(&kept), vec!["J1", "U1", "S1", "U2"]);
}

#[test]
fn search_empty_prefix_is_no_prefix() {
    for all in [false, true] {
        let with_empty = search(sample(), &DeviceFilter::new(all, Some(String::new())));
        let without = search(sample(), &DeviceFilter::new(all, None));
        assert_eq!(serials(&with_empty), serials(&without));
    }
}

#[test]
fn search_by_fingerprint_prefix() {
    let target = record(0x9999, 0x9999, "U1", None).hash();
    let prefix = target[..8].to_string();
    let all = search(sample(), &DeviceFilter::new(true, Some(prefix.clone())));
    assert_eq!(serials(&all), vec!["U1"]);
    let known_only = search(sample(), &DeviceFilter::new(false, Some(prefix)));
    assert!(known_only.is_empty());
    let full = search(sample(), &DeviceFilter::new(true, Some(target.clone())));
    assert_eq!(serials(&full), vec!["U1"]);
    let longer = search(sample(), &DeviceFilter::new(true, Some(format!("{}0", target))));
    assert!(longer.is_empty());
    let none = search(sample(), &DeviceFilter::new(true, Some("not-hex".to_string())));
    assert!(none.is_empty());
}

#[test]
fn prefix_and_substring_helpers() {
    assert!(has_prefix("abcdef", "abc"));
    assert!(has_prefix("abc", ""));
    assert!(!has_prefix("ab", "abc"));
    assert!(!has_prefix("abc", "abd"));
    assert!(contains_chars("Unique ID: XYZ999", "XYZ999"));
    assert!(contains_chars("anything", ""));
    assert!(!contains_chars("XYZ99", "XYZ999"));
    assert!(contains_chars("héllo wörld", "ö"));
}

#[test]
fn hex_digits_without_zeros() {
    let mut out = "x".to_string();
    push_hex_nonzero(0x1a03, &mut out);
    assert_eq!(out, "x1a3");
    let mut zero = String::new();
    push_hex_nonzero(0, &mut zero);
    assert_eq!(zero, "");
    let mut max = String::new();
    push_hex_nonzero(u64::MAX, &mut max);
    assert_eq!(max, "ffffffffffffffff");
}

#[test]
fn daplink_volume_names() {
    assert!(is_daplink_volume("DAPLINK"));
    assert!(is_daplink_volume("DAPLINK_B"));
    assert!(!is_daplink_volume("daplink"));
    assert!(!is_daplink_volume("MY_DAPLINK"));
    assert!(volume_holds_serial("S1", &volume("DAPLINK_X", Some("..S1.."))));
    assert!(!volume_holds_serial("S1", &volume("DAPLINK_X", None)));
    assert!(!volume_holds_serial("S1", &volume("DISK", Some("S1"))));
}
