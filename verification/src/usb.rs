//! The USB device that the bridge presents to the host.

use vstd::prelude::*;

verus! {

/// The descriptor fields of a USB device.
#[derive(Clone, Copy, Debug)]
pub struct UsbConfig<'a> {
    pub vendor_id: u16,
    pub product_id: u16,
    /// USB version, binary coded decimal.
    pub bcd_usb: u16,
    pub device_class: u8,
    pub device_sub_class: u8,
    pub device_protocol: u8,
    /// Release of the device, binary coded decimal.
    pub device_release: u16,
    /// Largest packet of the control endpoint, in bytes.
    pub max_packet_size_0: u8,
    pub manufacturer: Option<&'a str>,
    pub product: Option<&'a str>,
    pub serial_number: Option<&'a str>,
    pub supports_remote_wakeup: bool,
    /// Whether the device groups its interfaces by association descriptors.
    pub composite_with_iads: bool,
    pub self_powered: bool,
    /// Largest current drawn from the bus, in milliamperes.
    pub max_power: u16,
}

/// The vendor id of the bridge.
pub const VENDOR_ID: u16 = 0x1209;

/// The product id of the bridge.
pub const PRODUCT_ID: u16 = 0x0001;

/// The device class of a composite device.
pub const COMPOSITE_CLASS: u8 = 0xEF;

/// The device sub-class of a composite device.
pub const COMPOSITE_SUB_CLASS: u8 = 0x02;

/// The device protocol of a composite device.
pub const COMPOSITE_PROTOCOL: u8 = 0x01;

impl<'a> UsbConfig<'a> {
    /// A USB device can be built with these fields: a composite device has the
    /// class that the standard demands of it, the current is one that the bus
    /// allows, and the control endpoint has a legal packet size.
    pub open spec fn buildable(self) -> bool {
        &&& self.composite_with_iads ==> self.device_class == COMPOSITE_CLASS
            && self.device_sub_class == COMPOSITE_SUB_CLASS && self.device_protocol
            == COMPOSITE_PROTOCOL
        &&& self.max_power <= 500
        &&& self.max_packet_size_0 == 8 || self.max_packet_size_0 == 16 || self.max_packet_size_0
            == 32 || self.max_packet_size_0 == 64
    }
}

/// The default fields of device `product_id` of `vendor_id`.
pub open spec fn default_fields<'a>(vendor_id: u16, product_id: u16) -> UsbConfig<'a> {
    UsbConfig {
        vendor_id,
        product_id,
        bcd_usb: 0x0210,
        device_class: 0xEF,
        device_sub_class: 0x02,
        device_protocol: 0x01,
        device_release: 0x0010,
        max_packet_size_0: 64,
        manufacturer: None,
        product: None,
        serial_number: None,
        supports_remote_wakeup: false,
        composite_with_iads: true,
        self_powered: false,
        max_power: 100,
    }
}

/// The default fields of device `product_id` of `vendor_id`.
///
/// Trusted: calls `embassy_usb::Config::new`, which keeps the two ids and sets
/// every other field to a fixed default. The ids cannot be read back from its
/// result, so they are taken from the arguments.
#[verifier::external_body]
fn default_config<'a>(vendor_id: u16, product_id: u16) -> (config: UsbConfig<'a>)
    ensures
        config == default_fields(vendor_id, product_id),
{
    let config = embassy_usb::Config::new(vendor_id, product_id);
    UsbConfig {
        vendor_id, product_id, bcd_usb: config.bcd_usb as u16,
        device_class: config.device_class, device_sub_class: config.device_sub_class,
        device_protocol: config.device_protocol, device_release: config.device_release,
        max_packet_size_0: config.max_packet_size_0, manufacturer: config.manufacturer,
        product: config.product, serial_number: config.serial_number,
        supports_remote_wakeup: config.supports_remote_wakeup,
        composite_with_iads: config.composite_with_iads,
        self_powered: config.self_powered, max_power: config.max_power,
    }
}

/// The serial number of the bridge: sixteen times the letter B.
pub fn serial_number() -> (serial: &'static str)
    ensures
        serial@ == Seq::new(16, |i: int| 'B'),
{
    let serial = "BBBBBBBBBBBBBBBB";
    proof {
        reveal_strlit("BBBBBBBBBBBBBBBB");
        assert(serial@ =~= Seq::new(16, |i: int| 'B'));
    }
    serial
}

/// The fields of the bridge's USB device, with serial number `serial`.
pub fn usb_config<'a>(serial: &'a str) -> (config: UsbConfig<'a>)
    ensures
        config.manufacturer is Some,
        config.manufacturer->0@ == "okhsunrog"@,
        config.product is Some,
        config.product->0@ == "ESP-NOW Bridge"@,
        config.serial_number == Some(serial),
        config.device_class == COMPOSITE_CLASS,
        config.device_sub_class == COMPOSITE_SUB_CLASS,
        config.device_protocol == COMPOSITE_PROTOCOL,
        config.composite_with_iads,
        config == (UsbConfig {
            manufacturer: config.manufacturer,
            product: config.product,
            serial_number: config.serial_number,
            ..default_fields(VENDOR_ID, PRODUCT_ID)
        }),
        config.buildable(),
{
    let mut config = default_config(VENDOR_ID, PRODUCT_ID);
    config.manufacturer = Some("okhsunrog");
    config.product = Some("ESP-NOW Bridge");
    config.serial_number = Some(serial);
    config.device_class = COMPOSITE_CLASS;
    config.device_sub_class = COMPOSITE_SUB_CLASS;
    config.device_protocol = COMPOSITE_PROTOCOL;
    config.composite_with_iads = true;
    config
}

} // verus!
