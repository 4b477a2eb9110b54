//! Transport classification and the offset-table-driven report decoder.

use crate::bitfield::{
    extract_bits, lemma_touch_packing, little_endian_u16, spec_le_u16, spec_touch_x, spec_touch_y,
};
use crate::state::{ConnectionType, ControllerState, DecodeError, Direction, TouchPoint};
use vstd::prelude::*;

verus! {

/// Fixed length of one USB report, in bytes.
pub const USB_REPORT_LEN: usize = 64;

/// Fixed length of one Bluetooth report, in bytes.
pub const BT_REPORT_LEN: usize = 78;

/// Tags the transport from the byte length of the first successful read.
/// Length 64 means USB, 78 means Bluetooth; any other length is rejected,
/// and the caller must abort the session rather than guess.
pub fn classify(length: usize) -> (r: Result<ConnectionType, DecodeError>)
    ensures
        length == USB_REPORT_LEN ==> r == Ok::<ConnectionType, DecodeError>(ConnectionType::Usb),
        length == BT_REPORT_LEN ==> r == Ok::<ConnectionType, DecodeError>(
            ConnectionType::Bluetooth,
        ),
        length != USB_REPORT_LEN && length != BT_REPORT_LEN ==> r == Err::<
            ConnectionType,
            DecodeError,
        >(DecodeError::UnrecognizedReportSize(length)),
{
    if length == USB_REPORT_LEN {
        Ok(ConnectionType::Usb)
    } else if length == BT_REPORT_LEN {
        Ok(ConnectionType::Bluetooth)
    } else {
        Err(DecodeError::UnrecognizedReportSize(length))
    }
}

/// The direction a nibble value encodes: values 0 through 7 run clockwise
/// starting at Up; every other value, including the released value 8, is
/// Neutral.
pub open spec fn spec_direction(nibble: u8) -> Direction {
    if nibble == 0 {
        Direction::Up
    } else if nibble == 1 {
        Direction::UpRight
    } else if nibble == 2 {
        Direction::Right
    } else if nibble == 3 {
        Direction::DownRight
    } else if nibble == 4 {
        Direction::Down
    } else if nibble == 5 {
        Direction::DownLeft
    } else if nibble == 6 {
        Direction::Left
    } else if nibble == 7 {
        Direction::UpLeft
    } else {
        Direction::Neutral
    }
}

/// Maps a directional nibble to its direction by one table lookup, so that the
/// nine-way result is single-valued by construction.
pub fn direction_from_nibble(nibble: u8) -> (d: Direction)
    ensures
        d == spec_direction(nibble),
{
    match nibble {
        0 => Direction::Up,
        1 => Direction::UpRight,
        2 => Direction::Right,
        3 => Direction::DownRight,
        4 => Direction::Down,
        5 => Direction::DownLeft,
        6 => Direction::Left,
        7 => Direction::UpLeft,
        _ => Direction::Neutral,
    }
}

/// For nibble values 0 through 7 the decoded direction follows the clockwise
/// table starting at Up, and is never Neutral; for 8 through 15 (and any
/// larger value) it is Neutral. Exactly one of the nine values holds either
/// way, since the direction is a single tag.
pub proof fn lemma_direction_nibble(nibble: u8)
    ensures
        nibble == 0 ==> spec_direction(nibble) == Direction::Up,
        nibble == 1 ==> spec_direction(nibble) == Direction::UpRight,
        nibble == 2 ==> spec_direction(nibble) == Direction::Right,
        nibble == 3 ==> spec_direction(nibble) == Direction::DownRight,
        nibble == 4 ==> spec_direction(nibble) == Direction::Down,
        nibble == 5 ==> spec_direction(nibble) == Direction::DownLeft,
        nibble == 6 ==> spec_direction(nibble) == Direction::Left,
        nibble == 7 ==> spec_direction(nibble) == Direction::UpLeft,
        spec_direction(nibble) != Direction::Neutral <==> nibble < 8,
{
}

/// The bit of a touch status byte that is clear while the contact is active:
/// clear-when-active polarity, pending confirmation against a hardware
/// capture.
pub const TOUCH_LIFT_MASK: u8 = 0x80;

/// Byte positions of each field within one transport's fixed-size report.
/// Multi-byte fields occupy consecutive bytes from the listed offset: four
/// stick axes, two trigger bytes, six little-endian motion words, and for
/// each touch contact a status byte followed by a three-byte coordinate
/// window.
pub struct ReportLayout {
    /// Fixed length of one report on this transport.
    pub report_len: usize,
    /// Directional nibble (low four bits) and face buttons (high four bits).
    pub face: usize,
    /// Shoulder and menu buttons, one bit each.
    pub shoulder: usize,
    /// Touchpad click, bit 1.
    pub misc: usize,
    /// Left stick X, left stick Y, right stick X, right stick Y.
    pub sticks: usize,
    /// L2 trigger value, then R2 trigger value.
    pub triggers: usize,
    /// 16-bit gyro sample timestamp.
    pub gyro_timestamp: usize,
    /// Gyro X, Y, Z then accelerometer X, Y, Z as little-endian pairs.
    pub motion: usize,
    /// 8-bit touch sample counter.
    pub touch_timestamp: usize,
    /// First contact: status byte, then the coordinate window.
    pub touch_1: usize,
    /// Second contact: status byte, then the coordinate window.
    pub touch_2: usize,
}

impl ReportLayout {
    /// Every field the table names lies inside one report.
    pub open spec fn wf(self) -> bool {
        &&& self.face < self.report_len
        &&& self.shoulder < self.report_len
        &&& self.misc < self.report_len
        &&& self.sticks + 3 < self.report_len
        &&& self.triggers + 1 < self.report_len
        &&& self.gyro_timestamp + 1 < self.report_len
        &&& self.motion + 11 < self.report_len
        &&& self.touch_timestamp < self.report_len
        &&& self.touch_1 + 3 < self.report_len
        &&& self.touch_2 + 3 < self.report_len
    }
}

/// The offset table of the 64-byte USB report.
pub open spec fn spec_usb_layout() -> ReportLayout {
    ReportLayout {
        report_len: 64,
        face: 5,
        shoulder: 6,
        misc: 7,
        sticks: 1,
        triggers: 8,
        gyro_timestamp: 10,
        motion: 13,
        touch_timestamp: 34,
        touch_1: 35,
        touch_2: 39,
    }
}

/// The offset table of the 78-byte Bluetooth report; offsets are shifted
/// against USB because Bluetooth reports carry extra leading framing bytes.
/// The touch sample counter shares its byte with the first contact's status.
pub open spec fn spec_bt_layout() -> ReportLayout {
    ReportLayout {
        report_len: 78,
        face: 7,
        shoulder: 8,
        misc: 9,
        sticks: 3,
        triggers: 10,
        gyro_timestamp: 12,
        motion: 15,
        touch_timestamp: 37,
        touch_1: 37,
        touch_2: 41,
    }
}

/// The offset table matching a transport tag.
pub open spec fn spec_layout(conn: ConnectionType) -> ReportLayout {
    match conn {
        ConnectionType::Usb => spec_usb_layout(),
        ConnectionType::Bluetooth => spec_bt_layout(),
    }
}

/// Builds the USB offset table.
pub fn usb_layout() -> (l: ReportLayout)
    ensures
        l == spec_usb_layout(),
        l.wf(),
        l.report_len == USB_REPORT_LEN,
{
    ReportLayout {
        report_len: 64,
        face: 5,
        shoulder: 6,
        misc: 7,
        sticks: 1,
        triggers: 8,
        gyro_timestamp: 10,
        motion: 13,
        touch_timestamp: 34,
        touch_1: 35,
        touch_2: 39,
    }
}

/// Builds the Bluetooth offset table.
pub fn bt_layout() -> (l: ReportLayout)
    ensures
        l == spec_bt_layout(),
        l.wf(),
        l.report_len == BT_REPORT_LEN,
{
    ReportLayout {
        report_len: 78,
        face: 7,
        shoulder: 8,
        misc: 9,
        sticks: 3,
        triggers: 10,
        gyro_timestamp: 12,
        motion: 15,
        touch_timestamp: 37,
        touch_1: 37,
        touch_2: 41,
    }
}

/// The snapshot a report's bytes denote under an offset table: the directional
/// nibble through the nine-way table, one bit per button, stick and trigger
/// bytes passed through unchanged, little-endian motion words, and for each
/// contact the status bit and the two packed 12-bit coordinates.
pub open spec fn spec_decode(l: ReportLayout, s: Seq<u8>) -> ControllerState
    recommends
        l.wf(),
        s.len() >= l.report_len,
{
    ControllerState {
        direction: spec_direction(s[l.face as int] & 0x0F),
        triangle: s[l.face as int] & 0x80 == 0x80,
        circle: s[l.face as int] & 0x40 == 0x40,
        cross: s[l.face as int] & 0x20 == 0x20,
        square: s[l.face as int] & 0x10 == 0x10,
        l1: s[l.shoulder as int] & 0x01 == 0x01,
        r1: s[l.shoulder as int] & 0x02 == 0x02,
        l2: s[l.shoulder as int] & 0x04 == 0x04,
        r2: s[l.shoulder as int] & 0x08 == 0x08,
        share: s[l.shoulder as int] & 0x10 == 0x10,
        options: s[l.shoulder as int] & 0x20 == 0x20,
        l3: s[l.shoulder as int] & 0x40 == 0x40,
        r3: s[l.shoulder as int] & 0x80 == 0x80,
        touchpad_click: s[l.misc as int] & 0x02 == 0x02,
        left_stick_x: s[l.sticks as int],
        left_stick_y: s[l.sticks + 1],
        right_stick_x: s[l.sticks + 2],
        right_stick_y: s[l.sticks + 3],
        l2_trigger: s[l.triggers as int],
        r2_trigger: s[l.triggers + 1],
        gyro_timestamp: spec_le_u16(s[l.gyro_timestamp as int], s[l.gyro_timestamp + 1]),
        gyro_x: spec_le_u16(s[l.motion as int], s[l.motion + 1]),
        gyro_y: spec_le_u16(s[l.motion + 2], s[l.motion + 3]),
        gyro_z: spec_le_u16(s[l.motion + 4], s[l.motion + 5]),
        accel_x: spec_le_u16(s[l.motion + 6], s[l.motion + 7]),
        accel_y: spec_le_u16(s[l.motion + 8], s[l.motion + 9]),
        accel_z: spec_le_u16(s[l.motion + 10], s[l.motion + 11]),
        touch_timestamp: s[l.touch_timestamp as int],
        touch_1: TouchPoint {
            active: s[l.touch_1 as int] & TOUCH_LIFT_MASK == 0,
            x: spec_touch_x(s[l.touch_1 + 1], s[l.touch_1 + 2], s[l.touch_1 + 3]),
            y: spec_touch_y(s[l.touch_1 + 1], s[l.touch_1 + 2], s[l.touch_1 + 3]),
        },
        touch_2: TouchPoint {
            active: s[l.touch_2 as int] & TOUCH_LIFT_MASK == 0,
            x: spec_touch_x(s[l.touch_2 + 1], s[l.touch_2 + 2], s[l.touch_2 + 3]),
            y: spec_touch_y(s[l.touch_2 + 1], s[l.touch_2 + 2], s[l.touch_2 + 3]),
        },
    }
}

/// Decodes one report under an offset table. Total for every buffer that
/// reaches the table's fixed length; a shorter buffer is rejected rather than
/// read out of bounds.
#[verifier::rlimit(100)]
pub fn decode_report(layout: &ReportLayout, buf: &[u8]) -> (r: Result<
    ControllerState,
    DecodeError,
>)
    requires
        layout.wf(),
    ensures
        buf@.len() >= layout.report_len ==> r == Ok::<ControllerState, DecodeError>(
            spec_decode(*layout, buf@),
        ),
        buf@.len() < layout.report_len ==> r == Err::<ControllerState, DecodeError>(
            DecodeError::TruncatedReport,
        ),
        r matches Ok(state) ==> state.wf(),
{
    if buf.len() < layout.report_len {
        return Err(DecodeError::TruncatedReport);
    }
    let face = buf[layout.face];
    let shoulder = buf[layout.shoulder];
    proof {
        lemma_touch_packing(
            buf@[layout.touch_1 + 1],
            buf@[layout.touch_1 + 2],
            buf@[layout.touch_1 + 3],
        );
        lemma_touch_packing(
            buf@[layout.touch_2 + 1],
            buf@[layout.touch_2 + 2],
            buf@[layout.touch_2 + 3],
        );
    }
    Ok(
        ControllerState {
            direction: direction_from_nibble(face & 0x0F),
            triangle: face & 0x80 == 0x80,
            circle: face & 0x40 == 0x40,
            cross: face & 0x20 == 0x20,
            square: face & 0x10 == 0x10,
            l1: shoulder & 0x01 == 0x01,
            r1: shoulder & 0x02 == 0x02,
            l2: shoulder & 0x04 == 0x04,
            r2: shoulder & 0x08 == 0x08,
            share: shoulder & 0x10 == 0x10,
            options: shoulder & 0x20 == 0x20,
            l3: shoulder & 0x40 == 0x40,
            r3: shoulder & 0x80 == 0x80,
            touchpad_click: buf[layout.misc] & 0x02 == 0x02,
            left_stick_x: buf[layout.sticks],
            left_stick_y: buf[layout.sticks + 1],
            right_stick_x: buf[layout.sticks + 2],
            right_stick_y: buf[layout.sticks + 3],
            l2_trigger: buf[layout.triggers],
            r2_trigger: buf[layout.triggers + 1],
            gyro_timestamp: little_endian_u16(
                buf[layout.gyro_timestamp],
                buf[layout.gyro_timestamp + 1],
            ),
            gyro_x: little_endian_u16(buf[layout.motion], buf[layout.motion + 1]),
            gyro_y: little_endian_u16(buf[layout.motion + 2], buf[layout.motion + 3]),
            gyro_z: little_endian_u16(buf[layout.motion + 4], buf[layout.motion + 5]),
            accel_x: little_endian_u16(buf[layout.motion + 6], buf[layout.motion + 7]),
            accel_y: little_endian_u16(buf[layout.motion + 8], buf[layout.motion + 9]),
            accel_z: little_endian_u16(buf[layout.motion + 10], buf[layout.motion + 11]),
            touch_timestamp: buf[layout.touch_timestamp],
            touch_1: TouchPoint {
                active: buf[layout.touch_1] & TOUCH_LIFT_MASK == 0,
                x: extract_bits(
                    buf[layout.touch_1 + 1],
                    buf[layout.touch_1 + 2],
                    buf[layout.touch_1 + 3],
                    8,
                    12,
                ),
                y: extract_bits(
                    buf[layout.touch_1 + 1],
                    buf[layout.touch_1 + 2],
                    buf[layout.touch_1 + 3],
                    20,
                    12,
                ),
            },
            touch_2: TouchPoint {
                active: buf[layout.touch_2] & TOUCH_LIFT_MASK == 0,
                x: extract_bits(
                    buf[layout.touch_2 + 1],
                    buf[layout.touch_2 + 2],
                    buf[layout.touch_2 + 3],
                    8,
                    12,
                ),
                y: extract_bits(
                    buf[layout.touch_2 + 1],
                    buf[layout.touch_2 + 2],
                    buf[layout.touch_2 + 3],
                    20,
                    12,
                ),
            },
        },
    )
}

/// Decodes one 64-byte USB report; only the first 64 bytes of a longer buffer
/// are read.
pub fn decode_usb(buf: &[u8]) -> (r: Result<ControllerState, DecodeError>)
    ensures
        buf@.len() >= USB_REPORT_LEN ==> r == Ok::<ControllerState, DecodeError>(
            spec_decode(spec_usb_layout(), buf@),
        ),
        buf@.len() < USB_REPORT_LEN ==> r == Err::<ControllerState, DecodeError>(
            DecodeError::TruncatedReport,
        ),
        r matches Ok(state) ==> state.wf(),
{
    let layout = usb_layout();
    decode_report(&layout, buf)
}

/// Decodes one 78-byte Bluetooth report; only the first 78 bytes of a longer
/// buffer are read.
pub fn decode_bluetooth(buf: &[u8]) -> (r: Result<ControllerState, DecodeError>)
    ensures
        buf@.len() >= BT_REPORT_LEN ==> r == Ok::<ControllerState, DecodeError>(
            spec_decode(spec_bt_layout(), buf@),
        ),
        buf@.len() < BT_REPORT_LEN ==> r == Err::<ControllerState, DecodeError>(
            DecodeError::TruncatedReport,
        ),
        r matches Ok(state) ==> state.wf(),
{
    let layout = bt_layout();
    decode_report(&layout, buf)
}

/// Decodes one report according to the classified transport: total for every
/// buffer that reaches that transport's fixed length, and a truncated buffer
/// is reported rather than read out of bounds.
pub fn decode(conn: ConnectionType, buf: &[u8]) -> (r: Result<ControllerState, DecodeError>)
    ensures
        buf@.len() >= spec_layout(conn).report_len ==> r == Ok::<ControllerState, DecodeError>(
            spec_decode(spec_layout(conn), buf@),
        ),
        buf@.len() < spec_layout(conn).report_len ==> r == Err::<ControllerState, DecodeError>(
            DecodeError::TruncatedReport,
        ),
        r matches Ok(state) ==> state.wf(),
{
    match conn {
        ConnectionType::Usb => decode_usb(buf),
        ConnectionType::Bluetooth => decode_bluetooth(buf),
    }
}

/// Axis passthrough: the four stick bytes and the two trigger bytes of a
/// report appear in the decoded snapshot unchanged, whatever their values.
pub proof fn lemma_axis_passthrough(l: ReportLayout, s: Seq<u8>)
    requires
        l.wf(),
        s.len() >= l.report_len,
    ensures
        spec_decode(l, s).left_stick_x == s[l.sticks as int],
        spec_decode(l, s).left_stick_y == s[l.sticks + 1],
        spec_decode(l, s).right_stick_x == s[l.sticks + 2],
        spec_decode(l, s).right_stick_y == s[l.sticks + 3],
        spec_decode(l, s).l2_trigger == s[l.triggers as int],
        spec_decode(l, s).r2_trigger == s[l.triggers + 1],
{
}

} // verus!
