//! Radio frames and how much of one a log line shows.

use vstd::prelude::*;
use vstd::slice::slice_subrange;

verus! {

/// The address that every ESP-NOW station in range listens to.
pub const BROADCAST_ADDRESS: [u8; 6] = [0xff, 0xff, 0xff, 0xff, 0xff, 0xff];

/// The largest frame that the ESP-NOW link carries, in bytes.
pub const ESP_NOW_MTU: u16 = 250;

/// The size of the queue of outgoing ESP-NOW frames, in bytes.
pub const ESP_NOW_QUEUE_SIZE: usize = 2048;

/// The largest frame that the USB link carries, in bytes.
pub const USB_MTU: u16 = 2048;

/// The size of a queue of outgoing USB frames, in bytes.
pub const USB_QUEUE_SIZE: usize = 8192;

/// The number of bytes of a frame that a log line shows.
pub const PREVIEW_LEN: usize = 24;

/// The start of `frame` that a log line shows: all of a short frame, the first
/// bytes of a long one.
pub fn preview(frame: &[u8]) -> (shown: &[u8])
    ensures
        frame@.len() <= PREVIEW_LEN ==> shown@ == frame@,
        frame@.len() > PREVIEW_LEN ==> shown@ == frame@.take(PREVIEW_LEN as int),
{
    let len: usize = frame.len();
    let shown_len: usize = if len < PREVIEW_LEN {
        len
    } else {
        PREVIEW_LEN
    };
    let shown = slice_subrange(frame, 0, shown_len);
    assert(shown@ == frame@.take(shown_len as int));
    assert(frame@.len() <= PREVIEW_LEN ==> frame@.take(shown_len as int) == frame@);
    shown
}

} // verus!
