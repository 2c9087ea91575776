//! Touch input: the GT911 touch controller protocol and what the UI input
//! device reports.
//!
//! The GT911 status register (0x814E) holds a "buffer ready" flag in bit 7
//! and the number of touch points in bits 0..3; the first point follows at
//! 0x814F as 8 bytes with x and y little-endian at offsets 1 and 3. Writing 0
//! to the status register clears the ready flag.

use vstd::prelude::*;

verus! {

/// Default GT911 I2C address.
pub const GT911_DEFAULT_ADDR: u8 = 0x5D;

/// Alternative GT911 I2C address.
pub const GT911_ALT_ADDR: u8 = 0x14;

/// Register address of the point status, big-endian.
pub const GT911_STATUS_REG: [u8; 2] = [0x81, 0x4E];

/// Register address of the first touch point, big-endian.
pub const GT911_POINT_REG: [u8; 2] = [0x81, 0x4F];

/// Register write that clears the "buffer ready" flag.
pub const GT911_CLEAR_STATUS: [u8; 3] = [0x81, 0x4E, 0x00];

/// Latest touch sample handed to the UI.
#[derive(Debug, Clone, Copy, PartialEq, Eq, Structural)]
pub struct TouchState {
    pub x: i16,
    pub y: i16,
    pub pressed: bool,
}

/// What the UI input device reads.
#[derive(Debug, Clone, Copy, PartialEq, Eq, Structural)]
pub enum TouchReading {
    Pressed { x: i16, y: i16 },
    Released,
}

/// "Buffer ready" flag of a GT911 status byte.
pub open spec fn status_ready(status: u8) -> bool {
    status & 0x80 != 0
}

/// Number of touch points in a GT911 status byte.
pub open spec fn status_points(status: u8) -> u8 {
    status & 0x0F
}

/// Coordinate stored little-endian at `at` of a point record.
pub open spec fn point_coord(data: [u8; 8], at: int) -> u16 {
    (data@[at] as u16) | ((data@[at + 1] as u16) << 8u16)
}

/// What the UI input device reads from a touch state.
pub open spec fn reading_of(s: TouchState) -> TouchReading {
    if s.pressed {
        TouchReading::Pressed { x: s.x, y: s.y }
    } else {
        TouchReading::Released
    }
}

/// The touch state after a status byte: without a touch point the touch is
/// released, otherwise it waits for the point record.
pub open spec fn after_status(s: TouchState, status: u8) -> TouchState {
    if status_ready(status) && status_points(status) > 0 {
        s
    } else {
        TouchState { x: s.x, y: s.y, pressed: false }
    }
}

/// The touch state after a point record: pressed at the recorded position.
pub open spec fn after_point(data: [u8; 8]) -> TouchState {
    TouchState { x: point_coord(data, 1) as i16, y: point_coord(data, 3) as i16, pressed: true }
}

impl TouchState {
    /// No touch yet.
    pub fn new() -> (s: Self)
        ensures
            s == (TouchState { x: 0, y: 0, pressed: false }),
    {
        TouchState { x: 0, y: 0, pressed: false }
    }

    /// What the UI input device reads from this state.
    pub fn read(&self) -> (reading: TouchReading)
        ensures
            reading == reading_of(*self),
    {
        if self.pressed {
            TouchReading::Pressed { x: self.x, y: self.y }
        } else {
            TouchReading::Released
        }
    }

    /// Handles a GT911 status byte. Returns whether the first touch point is
    /// to be read next, and whether the ready flag is to be cleared
    /// afterwards. Without a touch point the state is marked released.
    pub fn on_status(&mut self, status: u8) -> (next: (bool, bool))
        ensures
            next.0 == (status_ready(status) && status_points(status) > 0),
            next.1 == status_ready(status),
            *final(self) == after_status(*old(self), status),
    {
        let buffer_ready = (status & 0x80) != 0;
        let num_points = status & 0x0F;
        if buffer_ready && num_points > 0 {
            (true, buffer_ready)
        } else {
            self.pressed = false;
            (false, buffer_ready)
        }
    }

    /// Records the first touch point read from the controller.
    pub fn on_point(&mut self, data: [u8; 8])
        ensures
            *final(self) == after_point(data),
    {
        let x: u16 = (data[1] as u16) | ((data[2] as u16) << 8u16);
        let y: u16 = (data[3] as u16) | ((data[4] as u16) << 8u16);
        self.x = x as i16;
        self.y = y as i16;
        self.pressed = true;
    }
}

/// A status byte that reports no touch point makes the UI read a release,
/// whatever the touch was before.
pub proof fn lemma_no_point_reads_released(s: TouchState, status: u8)
    requires
        !(status_ready(status) && status_points(status) > 0),
    ensures
        reading_of(after_status(s, status)) == TouchReading::Released,
{
}

/// After a point record the UI reads a press at the recorded position, and
/// a following status byte that still reports a point keeps it.
pub proof fn lemma_point_reads_pressed(data: [u8; 8], status: u8)
    ensures
        reading_of(after_point(data)) == (TouchReading::Pressed {
            x: point_coord(data, 1) as i16,
            y: point_coord(data, 3) as i16,
        }),
        status_ready(status) && status_points(status) > 0 ==> reading_of(
            after_status(after_point(data), status),
        ) == reading_of(after_point(data)),
{
}

} // verus!
