//! How a node of the network describes itself.

use vstd::prelude::*;

verus! {

/// What a node answers when it is asked who it is.
#[derive(Debug)]
pub struct DeviceInfo {
    pub name: Option<String>,
    pub description: Option<String>,
    pub unique_id: u64,
}

/// The longest name that fits a device description, in bytes.
pub const NAME_CAPACITY: usize = 16;

/// The longest description that fits a device description, in bytes.
pub const DESCRIPTION_CAPACITY: usize = 32;

/// The number of pings, and of questions, that a node lets wait.
pub const SERVICE_DEPTH: usize = 2;

/// `text` where it fits into `capacity` bytes, nothing of it where it does not.
pub open spec fn fitted(text: Seq<char>, capacity: usize) -> Seq<char> {
    if vstd::utf8::encode_utf8(text).len() <= capacity {
        text
    } else {
        seq![]
    }
}

/// A text is kept whole or not at all, and it is kept exactly where its encoding
/// has room, one without room being left empty.
pub proof fn keeps_whole_or_nothing(text: Seq<char>, capacity: usize)
    ensures
        vstd::utf8::encode_utf8(text).len() <= capacity ==> fitted(text, capacity) == text,
        vstd::utf8::encode_utf8(text).len() > capacity ==> fitted(text, capacity).len() == 0,
{
}

/// `name` as the name of a device description, where it fits.
///
/// Trusted: makes the `name` field of `ergot::well_known::DeviceInfo`, a
/// `heapless::String<16>`, from `name` by `TryFrom<&str>`, which fails exactly
/// where the text is longer than 16 bytes and keeps it whole otherwise.
#[verifier::external_body]
fn as_name(name: &str) -> (kept: Option<String>)
    ensures
        kept is Some <==> vstd::utf8::encode_utf8(name@).len() <= NAME_CAPACITY,
        kept is Some ==> kept->0@ == name@,
{
    let info = ergot::well_known::DeviceInfo {
        name: name.try_into().ok(),
        description: None,
        unique_id: 0,
    };
    info.name.map(|kept| kept.as_str().to_string())
}

/// `description` as the text of a device description, where it fits.
///
/// Trusted: makes the `description` field of `ergot::well_known::DeviceInfo`, a
/// `heapless::String<32>`, from `description` by `TryFrom<&str>`, which fails
/// exactly where the text is longer than 32 bytes and keeps it whole otherwise.
#[verifier::external_body]
fn as_description(description: &str) -> (kept: Option<String>)
    ensures
        kept is Some <==> vstd::utf8::encode_utf8(description@).len() <= DESCRIPTION_CAPACITY,
        kept is Some ==> kept->0@ == description@,
{
    let info = ergot::well_known::DeviceInfo {
        name: None,
        description: description.try_into().ok(),
        unique_id: 0,
    };
    info.description.map(|kept| kept.as_str().to_string())
}

/// The description of a node. A text that does not fit is left empty.
pub fn device_info(name: &str, description: &str, unique_id: u64) -> (info: DeviceInfo)
    ensures
        info.name is Some,
        info.name->0@ == fitted(name@, NAME_CAPACITY),
        info.description is Some,
        info.description->0@ == fitted(description@, DESCRIPTION_CAPACITY),
        info.unique_id == unique_id,
{
    let name: String = match as_name(name) {
        Some(kept) => kept,
        None => String::new(),
    };
    let description: String = match as_description(description) {
        Some(kept) => kept,
        None => String::new(),
    };
    DeviceInfo { name: Some(name), description: Some(description), unique_id }
}

/// The node that `info` describes.
pub open spec fn describes(
    info: DeviceInfo,
    name: Seq<char>,
    description: Seq<char>,
    unique_id: u64,
) -> bool {
    &&& info.name is Some
    &&& info.name->0@ == name
    &&& info.description is Some
    &&& info.description->0@ == description
    &&& info.unique_id == unique_id
}

/// The description of the bridge.
pub fn bridge_info() -> (info: DeviceInfo)
    ensures
        describes(info, "ESP-NOW Bridge"@, "S3 ESP-NOW+USB"@, 0),
{
    proof {
        reveal_strlit("ESP-NOW Bridge");
        reveal_strlit("S3 ESP-NOW+USB");
        vstd::utf8::is_ascii_chars_encode_utf8("ESP-NOW Bridge"@);
        vstd::utf8::is_ascii_chars_encode_utf8("S3 ESP-NOW+USB"@);
    }
    device_info("ESP-NOW Bridge", "S3 ESP-NOW+USB", 0)
}

/// The description of the root device.
pub fn root_info() -> (info: DeviceInfo)
    ensures
        describes(info, "ESP-NOW S3"@, "Root Router"@, 0),
{
    proof {
        reveal_strlit("ESP-NOW S3");
        reveal_strlit("Root Router");
        vstd::utf8::is_ascii_chars_encode_utf8("ESP-NOW S3"@);
        vstd::utf8::is_ascii_chars_encode_utf8("Root Router"@);
    }
    device_info("ESP-NOW S3", "Root Router", 0)
}

} // verus!
