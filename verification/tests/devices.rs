use loq_rgb::detect::{detect_from_bus, machine_label, usb_entry, Detected};
use loq_rgb::devices::{clean_dmi_value, controller_label, known_controllers, ITE_VID};

#[test]
fn c993_is_a_known_controller() {
    assert_eq!(controller_label(ITE_VID, 0xC993), Some("Lenovo LOQ (2024)"));
}

#[test]
fn unknown_pid_is_none() {
    assert_eq!(controller_label(ITE_VID, 0x1234), None);
    assert_eq!(controller_label(0x1234, 0xC993), None);
}

#[test]
fn no_duplicate_pids_in_table() {
    let mut pids: Vec<u16> = known_controllers().iter().map(|(_, p, _)| *p).collect();
    let n = pids.len();
    pids.sort_unstable();
    pids.dedup();
    assert_eq!(pids.len(), n, "table contains duplicate PIDs");
}

#[test]
fn every_table_entry_is_recognised() {
    let table = known_controllers();
    assert_eq!(table.len(), 11);
    for (v, p, label) in table {
        assert_eq!(controller_label(v, p), Some(label));
    }
}

#[test]
fn unknown_bus_returns_none() {
    let devs = vec![(0x0bda, 0x4853), (0x048d, 0xc996)];
    assert!(detect_from_bus(&devs, None).is_none());
}

#[test]
fn empty_bus_returns_none() {
    assert!(detect_from_bus(&[], None).is_none());
}

#[test]
fn c993_is_preferred_only_if_present() {
    let devs = vec![(0x048d, 0xc985), (0x048d, 0xc993)];
    let d = detect_from_bus(&devs, None).unwrap();
    assert!(d.pid == 0xc985 || d.pid == 0xc993);
}

#[test]
fn first_supported_device_in_bus_order_wins() {
    let devs = vec![(0x0bda, 0x4853), (0x048d, 0xc993), (0x048d, 0xc985)];
    let d = detect_from_bus(&devs, Some("LENOVO LOQ 15IRX9 (83DV)".to_string())).unwrap();
    assert_eq!(d.pid, 0xc993);
    assert_eq!(d.family, "Lenovo LOQ (2024)");
    assert_eq!(d.machine.as_deref(), Some("LENOVO LOQ 15IRX9 (83DV)"));
}

#[test]
fn describe_with_and_without_machine() {
    let d = Detected {
        vid: 0x048d,
        pid: 0xc993,
        family: "Lenovo LOQ (2024)",
        machine: Some("LENOVO LOQ 15IRX9 (83DV)".to_string()),
    };
    assert_eq!(
        d.describe(),
        "LENOVO LOQ 15IRX9 (83DV) · Lenovo LOQ (2024) controller 048d:c993"
    );
    let bare = Detected { machine: None, ..d };
    assert_eq!(bare.describe(), "Lenovo LOQ (2024) controller 048d:c993");
}

#[test]
fn machine_label_prefers_marketing_name_and_keeps_model_code() {
    let s = |v: &str| Some(v.to_string());
    assert_eq!(
        machine_label(s("LENOVO"), s("LOQ 15IRX9"), None, s("83DV"), s("LNVNB161216")),
        s("LENOVO LOQ 15IRX9 (83DV)")
    );
    assert_eq!(machine_label(s("LENOVO"), None, None, s("83DV"), None), s("LENOVO 83DV"));
    assert_eq!(machine_label(s("LENOVO"), None, s("LOQ"), None, s("B1")), s("LENOVO LOQ (B1)"));
    assert_eq!(machine_label(None, s("LOQ"), None, s("83DV"), None), None);
    assert_eq!(machine_label(s("LENOVO"), None, None, None, s("B1")), None);
}

#[test]
fn dmi_placeholders_are_dropped() {
    assert_eq!(clean_dmi_value("  LENOVO\n"), Some("LENOVO".to_string()));
    assert_eq!(clean_dmi_value("None\n"), None);
    assert_eq!(clean_dmi_value("To be filled by O.E.M."), None);
    assert_eq!(clean_dmi_value(" \n"), None);
}

#[test]
fn sysfs_entries_parse_like_the_scanner() {
    assert_eq!(usb_entry("1-7", "048d\n", "c993\n"), Some((0x048d, 0xc993)));
    assert_eq!(usb_entry("1-7:1.0", "048d\n", "c993\n"), None);
    assert_eq!(usb_entry("1-1", "0BDA", "+4853"), Some((0x0bda, 0x4853)));
    assert_eq!(usb_entry("1-1", "", "4853"), None);
    assert_eq!(usb_entry("1-1", "10000", "4853"), None);
    assert_eq!(usb_entry("1-1", "04x8", "4853"), None);
}
