use loq_rgb::hid_policy::{classify_io_error, classify_open_error, pick_interface};
use loq_rgb::error::Error;

#[test]
fn every_variant_has_a_hint() {
    for e in [
        Error::DeviceNotFound("x".into()),
        Error::PermissionDenied("x".into()),
        Error::Io("x".into()),
        Error::Unsupported("x".into()),
        Error::Protocol("x".into()),
        Error::Config("x".into()),
        Error::AlreadyRunning("x".into()),
    ] {
        assert!(!e.hint().is_empty());
        let _ = e.message();
    }
}

#[test]
fn messages_lead_with_the_variant() {
    assert_eq!(Error::Config("bad".into()).message(), "Configuration error: bad");
    assert_eq!(
        Error::DeviceNotFound("gone".into()).message(),
        "No supported keyboard controller found: gone"
    );
    assert!(Error::PermissionDenied("x".into()).hint().contains("udev"));
}

#[test]
fn duplicate_is_an_equal_copy() {
    let e = Error::Io("unplugged".into());
    assert_eq!(e.duplicate(), e);
}

#[test]
fn hid_errors_are_classified_by_message() {
    assert_eq!(
        classify_open_error("Operation not permitted".into()),
        Error::PermissionDenied("Operation not permitted".into())
    );
    assert_eq!(
        classify_open_error("Permission denied".into()),
        Error::PermissionDenied("Permission denied".into())
    );
    assert_eq!(classify_open_error("busy".into()), Error::Io("busy".into()));
    assert_eq!(
        classify_io_error("No such device".into()),
        Error::DeviceNotFound("No such device".into())
    );
    assert_eq!(classify_io_error("timeout".into()), Error::Io("timeout".into()));
}

#[test]
fn interface_choice_prefers_the_lighting_usage() {
    let devs = vec![
        (0x048d, 0xc993, 0x0001, 0x0006),
        (0x048d, 0xc993, 0xff89, 0x00cc),
        (0x046d, 0xc52b, 0xff89, 0x00cc),
    ];
    assert_eq!(pick_interface(&devs, 0x048d, 0xc993), Ok(1));
    let only_other = vec![(0x1111, 0x2222, 0, 0), (0x048d, 0xc993, 1, 6)];
    assert_eq!(pick_interface(&only_other, 0x048d, 0xc993), Ok(1));
    assert_eq!(
        pick_interface(&only_other, 0x048d, 0xc983),
        Err(Error::DeviceNotFound("048d:c983 not found on the USB bus".into()))
    );
}

#[test]
fn permission_hint_names_the_udev_command() {
    let hint = Error::PermissionDenied("x".into()).hint();
    assert!(hint.contains("`sudo loq-rgb-cli udev`"), "{hint}");
    assert!(!hint.contains("install-udev"));
}
