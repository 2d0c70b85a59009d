use mechaflt::devices::{format_hex4, get_devices, strip_trailing_colons, UsbDevice, UsbDevices};

#[test]
fn device_fields_are_formatted() {
    let d = UsbDevice::new("1:12", "MX8MP", "SDPS:", 0x1fc9, 0x0146, 0x2, "ABC");
    assert_eq!(d.path, "1:12");
    assert_eq!(d.chip, "MX8MP");
    assert_eq!(d.protocol, "SDPS");
    assert_eq!(d.vendor_id, "0x1FC9");
    assert_eq!(d.product_id, "0x0146");
    assert_eq!(d.bcd, "0x0002");
    assert_eq!(d.serial_no, "ABC");
}

#[test]
fn hex_edges() {
    assert_eq!(format_hex4(0), "0x0000");
    assert_eq!(format_hex4(0xffff), "0xFFFF");
    assert_eq!(format_hex4(0xa5b0), "0xA5B0");
}

#[test]
fn trailing_colons_all_go() {
    assert_eq!(strip_trailing_colons("FB:::"), "FB");
    assert_eq!(strip_trailing_colons(":a:"), ":a");
    assert_eq!(strip_trailing_colons(""), "");
}

#[test]
fn devices_keep_their_order() {
    let mut ds = UsbDevices::empty();
    assert_eq!(ds.len(), 0);
    ds.add(UsbDevice::new("a", "c1", "SDP:", 1, 2, 3, "s1"));
    ds.add(UsbDevice::new("b", "c2", "FB:", 1, 2, 3, "s2"));
    let paths: Vec<&str> = ds.iter().map(|d| d.path.as_str()).collect();
    assert_eq!(paths, vec!["a", "b"]);
    let v = get_devices(ds);
    assert_eq!(v.len(), 2);
    assert_eq!(v[1].protocol, "FB");
}
