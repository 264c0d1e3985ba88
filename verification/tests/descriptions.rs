use esp_now_bridge::device_info::{bridge_info, device_info, root_info};
use esp_now_bridge::panic::{PanicAction, PanicHandler};
use esp_now_bridge::usb::{serial_number, usb_config};

#[test]
fn usb_fields_of_the_bridge() {
    let config = usb_config(serial_number());
    assert_eq!(config.vendor_id, 0x1209);
    assert_eq!(config.product_id, 0x0001);
    assert_eq!(config.manufacturer, Some("okhsunrog"));
    assert_eq!(config.product, Some("ESP-NOW Bridge"));
    assert_eq!(config.serial_number, Some("BBBBBBBBBBBBBBBB"));
    assert_eq!(config.device_class, 0xEF);
    assert_eq!(config.device_sub_class, 0x02);
    assert_eq!(config.device_protocol, 0x01);
    assert!(config.composite_with_iads);
    assert_eq!(config.bcd_usb, 0x0210);
    assert_eq!(config.device_release, 0x0010);
    assert_eq!(config.max_packet_size_0, 64);
    assert!(!config.supports_remote_wakeup);
    assert!(!config.self_powered);
    assert_eq!(config.max_power, 100);
}

#[test]
fn usb_serial_number_is_kept() {
    assert_eq!(usb_config("").serial_number, Some(""));
    assert_eq!(usb_config("42").serial_number, Some("42"));
}

#[test]
fn serial_number_of_the_bridge() {
    let bytes = [b'B'; 16];
    assert_eq!(serial_number().as_bytes(), &bytes);
}

#[test]
fn nodes_describe_themselves() {
    let bridge = bridge_info();
    assert_eq!(bridge.name.as_deref(), Some("ESP-NOW Bridge"));
    assert_eq!(bridge.description.as_deref(), Some("S3 ESP-NOW+USB"));
    assert_eq!(bridge.unique_id, 0);
    let root = root_info();
    assert_eq!(root.name.as_deref(), Some("ESP-NOW S3"));
    assert_eq!(root.description.as_deref(), Some("Root Router"));
    assert_eq!(root.unique_id, 0);
}

#[test]
fn longest_texts_fit() {
    let info = device_info("0123456789abcdef", "0123456789abcdef0123456789abcdef", 5);
    assert_eq!(info.name.as_deref(), Some("0123456789abcdef"));
    assert_eq!(info.description.as_deref(), Some("0123456789abcdef0123456789abcdef"));
    assert_eq!(info.unique_id, 5);
}

#[test]
fn longer_texts_are_left_empty() {
    let info = device_info("0123456789abcdefg", "0123456789abcdef0123456789abcdefg", 1);
    assert_eq!(info.name.as_deref(), Some(""));
    assert_eq!(info.description.as_deref(), Some(""));
}

#[test]
fn texts_are_measured_in_bytes() {
    let eight = "\u{e9}".repeat(8);
    let nine = "\u{e9}".repeat(9);
    assert_eq!(device_info(&eight, &nine, 0).name.as_deref(), Some(eight.as_str()));
    assert_eq!(device_info(&nine, &nine, 0).name.as_deref(), Some(""));
    assert_eq!(device_info(&nine, &nine, 0).description.as_deref(), Some(nine.as_str()));
}

#[test]
fn panic_is_reported_once() {
    let mut handler = PanicHandler::start();
    assert_eq!(handler, PanicHandler { reported: false });
    let mut logged = Vec::new();
    for step in 0..10 {
        match esp_now_bridge::panic::panic(&mut handler, &"out of memory") {
            PanicAction::LogError(text) => {
                assert_eq!(step, 0);
                logged.push(text.to_string());
            }
            PanicAction::Spin => assert!(step > 0),
        }
        assert_eq!(handler, PanicHandler { reported: true });
    }
    assert_eq!(logged, vec!["out of memory"]);
}
