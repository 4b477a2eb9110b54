//! The decoded snapshot of controller input state, the transport tag, and the
//! errors the decoder can report.

use vstd::prelude::*;

verus! {

/// The physical link over which reports arrive, determined once per session
/// from the length of the first report.
#[derive(Clone, Copy, Debug, PartialEq, Eq, Structural)]
pub enum ConnectionType {
    Usb,
    Bluetooth,
}

/// The eight-way digital direction input. Exactly one value holds at a time;
/// `Neutral` is the released state.
#[derive(Clone, Copy, Debug, PartialEq, Eq, Structural)]
pub enum Direction {
    Neutral,
    Up,
    UpRight,
    Right,
    DownRight,
    Down,
    DownLeft,
    Left,
    UpLeft,
}

/// One tracked touchpad contact: an active flag and a 12-bit coordinate pair.
#[derive(Clone, Copy, Debug, PartialEq, Eq, Structural)]
pub struct TouchPoint {
    pub active: bool,
    pub x: u16,
    pub y: u16,
}

impl TouchPoint {
    /// Both coordinates fit in the touchpad's 12-bit range.
    pub open spec fn wf(self) -> bool {
        self.x <= 0xFFF && self.y <= 0xFFF
    }
}

/// One immutable snapshot of the controller's input state, produced fresh by
/// each decode call.
#[derive(Clone, Copy, Debug, PartialEq, Eq, Structural)]
pub struct ControllerState {
    pub direction: Direction,
    pub triangle: bool,
    pub circle: bool,
    pub cross: bool,
    pub square: bool,
    pub l1: bool,
    pub r1: bool,
    pub l2: bool,
    pub r2: bool,
    pub share: bool,
    pub options: bool,
    pub l3: bool,
    pub r3: bool,
    pub touchpad_click: bool,
    pub left_stick_x: u8,
    pub left_stick_y: u8,
    pub right_stick_x: u8,
    pub right_stick_y: u8,
    pub l2_trigger: u8,
    pub r2_trigger: u8,
    pub gyro_timestamp: u16,
    pub gyro_x: u16,
    pub gyro_y: u16,
    pub gyro_z: u16,
    pub accel_x: u16,
    pub accel_y: u16,
    pub accel_z: u16,
    pub touch_timestamp: u8,
    pub touch_1: TouchPoint,
    pub touch_2: TouchPoint,
}

impl ControllerState {
    /// Every coordinate a decode produces lies in the touchpad's range.
    pub open spec fn wf(self) -> bool {
        self.touch_1.wf() && self.touch_2.wf()
    }
}

/// Why a report could not be handled.
#[derive(Clone, Copy, Debug, PartialEq, Eq, Structural)]
pub enum DecodeError {
    /// The first report's length matches neither transport, so the session
    /// cannot be classified; carries the offending length.
    UnrecognizedReportSize(usize),
    /// A buffer shorter than its transport's fixed report length reached the
    /// decoder.
    TruncatedReport,
}

} // verus!
