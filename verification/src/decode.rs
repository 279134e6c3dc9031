use vstd::prelude::*;

use crate::events::EventType;

verus! {

/// Native event type codes, as carried in the first byte of a native record
/// and in the `type` field of a native descriptor.
pub const NATIVE_KEY_PRESS: u8 = 2;

pub const NATIVE_KEY_RELEASE: u8 = 3;

pub const NATIVE_BUTTON_PRESS: u8 = 4;

pub const NATIVE_BUTTON_RELEASE: u8 = 5;

pub const NATIVE_MOTION_NOTIFY: u8 = 6;

/// Native button codes that double as wheel notifications: a press of button
/// 4 means one wheel step up (negative vertical delta), a press of button 5
/// one wheel step down (positive vertical delta).  Neither has release
/// semantics.
pub const WHEEL_UP_BUTTON: u8 = 4;

pub const WHEEL_DOWN_BUTTON: u8 = 5;

/// Category tag of a record that carries real input from the server; records
/// in any other category (replies, client-generated data, stream markers) are
/// not input and must be ignored.
pub const FROM_SERVER: i32 = 0;

/// Size in bytes of the fixed native record layout: 1-byte type, 1-byte
/// code, 2-byte pad, four 4-byte fields, two 2-byte coordinates, one 4-byte
/// trailing field.
pub const DATUM_BYTES: usize = 28;

/// The fields of a native record that decoding reads: the event type, the
/// key or button code, and the pointer coordinates (meaningful for motion
/// records only).
#[derive(Clone, Copy, Debug, PartialEq, Eq, Structural)]
pub struct NativeDatum {
    pub xtype: u8,
    pub code: u8,
    pub x: u16,
    pub y: u16,
}

/// The 16-bit value stored least-significant byte first at `lo`, `hi`.
pub open spec fn word16(lo: u8, hi: u8) -> u16 {
    (lo + hi * 256) as u16
}

/// The datum held by a well-formed record: byte 0 is the type, byte 1 the
/// code, bytes 20..24 the two little-endian coordinate words.
pub open spec fn datum_of_bytes(bytes: Seq<u8>) -> NativeDatum
    recommends
        bytes.len() >= DATUM_BYTES,
{
    NativeDatum {
        xtype: bytes[0],
        code: bytes[1],
        x: word16(bytes[20], bytes[21]),
        y: word16(bytes[22], bytes[23]),
    }
}

/// What `parse_datum` returns: the datum, or nothing for a payload too short
/// to hold the fixed layout.
pub open spec fn parse_datum_spec(bytes: Seq<u8>) -> Option<NativeDatum> {
    if bytes.len() >= DATUM_BYTES {
        Some(datum_of_bytes(bytes))
    } else {
        None
    }
}

/// Reads the fixed native layout out of a raw record payload, checking the
/// length first: a too-short payload is a dropped record, never a misread.
pub fn parse_datum(data: &[u8]) -> (r: Option<NativeDatum>)
    ensures
        r == parse_datum_spec(data@),
{
    if data.len() < DATUM_BYTES {
        return None;
    }
    let x: u16 = data[20] as u16 + data[21] as u16 * 256;
    let y: u16 = data[22] as u16 + data[23] as u16 * 256;
    Some(NativeDatum { xtype: data[0], code: data[1], x, y })
}

/// The decoding table from native type and code to the uniform event model.
///
/// Button presses with the wheel codes collapse into `Wheel` steps; button
/// releases with the wheel codes are dropped outright (a wheel step has no
/// release); motion coordinates are widened from the 16-bit native space;
/// any unrecognized type is dropped.
pub open spec fn map_native_spec(xtype: u8, code: u8, x: u16, y: u16) -> Option<EventType> {
    if xtype == NATIVE_KEY_PRESS {
        Some(EventType::KeyPress { code })
    } else if xtype == NATIVE_KEY_RELEASE {
        Some(EventType::KeyRelease { code })
    } else if xtype == NATIVE_BUTTON_PRESS {
        if code == WHEEL_UP_BUTTON {
            Some(EventType::Wheel { delta_x: 0i64, delta_y: -1i64 })
        } else if code == WHEEL_DOWN_BUTTON {
            Some(EventType::Wheel { delta_x: 0i64, delta_y: 1i64 })
        } else {
            Some(EventType::ButtonPress { code })
        }
    } else if xtype == NATIVE_BUTTON_RELEASE {
        if code == WHEEL_UP_BUTTON || code == WHEEL_DOWN_BUTTON {
            None
        } else {
            Some(EventType::ButtonRelease { code })
        }
    } else if xtype == NATIVE_MOTION_NOTIFY {
        Some(EventType::MouseMove { x: x as i32, y: y as i32 })
    } else {
        None
    }
}

/// Maps one parsed native datum to the uniform event model, exactly as the
/// decoding table says.
pub fn map_native(xtype: u8, code: u8, x: u16, y: u16) -> (r: Option<EventType>)
    ensures
        r == map_native_spec(xtype, code, x, y),
{
    if xtype == NATIVE_KEY_PRESS {
        Some(EventType::KeyPress { code })
    } else if xtype == NATIVE_KEY_RELEASE {
        Some(EventType::KeyRelease { code })
    } else if xtype == NATIVE_BUTTON_PRESS {
        if code == WHEEL_UP_BUTTON {
            Some(EventType::Wheel { delta_x: 0, delta_y: -1 })
        } else if code == WHEEL_DOWN_BUTTON {
            Some(EventType::Wheel { delta_x: 0, delta_y: 1 })
        } else {
            Some(EventType::ButtonPress { code })
        }
    } else if xtype == NATIVE_BUTTON_RELEASE {
        if code == WHEEL_UP_BUTTON || code == WHEEL_DOWN_BUTTON {
            None
        } else {
            Some(EventType::ButtonRelease { code })
        }
    } else if xtype == NATIVE_MOTION_NOTIFY {
        Some(EventType::MouseMove { x: x as i32, y: y as i32 })
    } else {
        None
    }
}

/// What decoding one intercepted record yields: nothing unless the record
/// comes from the server and is long enough, else the table's verdict on its
/// type, code and coordinates.
pub open spec fn decode_record_spec(category: i32, bytes: Seq<u8>) -> Option<EventType> {
    if category != FROM_SERVER {
        None
    } else {
        match parse_datum_spec(bytes) {
            Some(d) => map_native_spec(d.xtype, d.code, d.x, d.y),
            None => None,
        }
    }
}

/// Decodes one intercepted record: discards anything not from the server,
/// reads the fixed layout defensively, and applies the decoding table.
pub fn decode_record(category: i32, data: &[u8]) -> (r: Option<EventType>)
    ensures
        r == decode_record_spec(category, data@),
{
    if category != FROM_SERVER {
        return None;
    }
    match parse_datum(data) {
        Some(d) => map_native(d.xtype, d.code, d.x, d.y),
        None => None,
    }
}

} // verus!
