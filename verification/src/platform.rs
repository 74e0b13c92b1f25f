//! The platform boundary: the logical events the core consumes, the traits
//! a display or input backend implements, and the exact decoding of raw key
//! codes into logical events.
//!
//! Backends open devices and read raw events outside the library; they hand
//! each event's plain fields in, and the mapping to a logical event is
//! verified here. The core has no dependency on the physical transport.

use vstd::prelude::*;

verus! {

use crate::display::DisplayError;

/// A logical input event: what the user asked for, independent of scan
/// codes or key codes.
#[derive(Debug, Clone, Copy, PartialEq, Eq, Structural)]
pub enum KeyEvent {
    /// Navigate to the previous shader.
    Left,
    /// Navigate to the next shader.
    Right,
    /// Toggle fullscreen mode.
    Fullscreen,
    /// Quit the application.
    Quit,
    /// Switch to a resolution mode (1-9).
    Resolution(u8),
}

/// Errors of an input backend's construction.
#[derive(Debug, Clone, Copy, PartialEq, Eq, Structural)]
pub enum InputError {
    NoInputDevice,
}

/// A display backend: opens and configures the display, reports and sets
/// its resolution, and consumes rendered frames. Implementations live in
/// the platform layer.
pub trait DisplayBackend: Sized {
    /// Creates and initializes the display backend.
    fn new() -> Result<Self, DisplayError>;

    /// The current resolution, `(width, height)` in pixels.
    fn get_resolution(&self) -> (u32, u32);

    /// Switches to the 1-based predefined mode `mode`, returning the new
    /// `(width, height)`, or an error that leaves the mode unchanged.
    fn set_mode(&mut self, mode: u8) -> Result<(u32, u32), DisplayError>;

    /// Presents one rendered frame. `data` holds the pixels with
    /// `row_pitch` bytes per row; rows must be copied using that stride.
    fn present(&mut self, data: &[u8], row_pitch: usize) -> Result<(), DisplayError>;
}

/// An input backend: opens the input device and polls it without blocking.
pub trait InputBackend: Sized {
    /// Creates and initializes the input backend.
    fn new() -> Result<Self, InputError>;

    /// The next pending logical event, if one is available. Never blocks.
    fn poll_event(&mut self) -> Option<KeyEvent>;
}

/// Pending logical events, drained in arrival order. Window systems that
/// deliver input through callbacks push events here as they arrive; the
/// per-frame poll takes the oldest one first, so no event is lost or
/// reordered between ticks.
pub struct EventQueue {
    pub events: Vec<KeyEvent>,
}

impl EventQueue {
    /// An empty queue.
    pub fn new() -> (q: Self)
        ensures
            q.events@.len() == 0,
    {
        EventQueue { events: Vec::new() }
    }

    /// Appends one event behind all pending ones.
    pub fn push_event(&mut self, event: KeyEvent)
        ensures
            final(self).events@ == old(self).events@.push(event),
    {
        self.events.push(event);
    }

    /// Takes the oldest pending event: the queue's front, with the rest
    /// kept in order; `None` exactly when nothing is pending.
    pub fn poll_event(&mut self) -> (r: Option<KeyEvent>)
        ensures
            match r {
                Some(e) => {
                    &&& old(self).events@.len() > 0
                    &&& e == old(self).events@[0]
                    &&& final(self).events@ == old(self).events@.subrange(
                        1,
                        old(self).events@.len() as int,
                    )
                },
                None => old(self).events@.len() == 0 && final(self).events@ == old(self).events@,
            },
    {
        if self.events.len() == 0 {
            return None;
        }
        let e = self.events.remove(0);
        proof {
            assert(final(self).events@ =~= old(self).events@.subrange(
                1,
                old(self).events@.len() as int,
            ));
        }
        Some(e)
    }
}

/// The logical event of one raw input-subsystem event, given its kind,
/// code and value. Only key presses (kind 1, value 1) map to an event:
/// codes 2-9 are the number keys 1-8 (resolution modes), 105 and 106 the
/// left and right arrows, 33 the F key, and 1 and 16 escape and Q.
pub open spec fn spec_map_raw_key(kind: u16, code: u16, value: i32) -> Option<KeyEvent> {
    if kind != 1 || value != 1 {
        None
    } else if 2 <= code <= 9 {
        Some(KeyEvent::Resolution((code - 1) as u8))
    } else if code == 105 {
        Some(KeyEvent::Left)
    } else if code == 106 {
        Some(KeyEvent::Right)
    } else if code == 33 {
        Some(KeyEvent::Fullscreen)
    } else if code == 1 || code == 16 {
        Some(KeyEvent::Quit)
    } else {
        None
    }
}

/// Decodes one raw input-subsystem event into a logical event.
pub fn map_raw_key(kind: u16, code: u16, value: i32) -> (r: Option<KeyEvent>)
    ensures
        r == spec_map_raw_key(kind, code, value),
{
    if kind != 1 || value != 1 {
        None
    } else if 2 <= code && code <= 9 {
        Some(KeyEvent::Resolution((code - 1) as u8))
    } else if code == 105 {
        Some(KeyEvent::Left)
    } else if code == 106 {
        Some(KeyEvent::Right)
    } else if code == 33 {
        Some(KeyEvent::Fullscreen)
    } else if code == 1 || code == 16 {
        Some(KeyEvent::Quit)
    } else {
        None
    }
}

/// The logical event of one keyboard scan code (set 1), for platforms that
/// deliver scan codes: `0x4b`/`0x4d` the arrows, `0x21` the F key, `0x01`
/// escape and `0x10` Q, and `0x02`-`0x0a` the number keys 1-9.
pub open spec fn spec_map_scancode(scancode: u8, pressed: bool) -> Option<KeyEvent> {
    if !pressed {
        None
    } else if scancode == 0x4b {
        Some(KeyEvent::Left)
    } else if scancode == 0x4d {
        Some(KeyEvent::Right)
    } else if scancode == 0x21 {
        Some(KeyEvent::Fullscreen)
    } else if scancode == 0x01 || scancode == 0x10 {
        Some(KeyEvent::Quit)
    } else if 0x02 <= scancode <= 0x0a {
        Some(KeyEvent::Resolution((scancode - 1) as u8))
    } else {
        None
    }
}

/// Decodes one scan-code event into a logical event.
pub fn map_scancode(scancode: u8, pressed: bool) -> (r: Option<KeyEvent>)
    ensures
        r == spec_map_scancode(scancode, pressed),
{
    if !pressed {
        None
    } else if scancode == 0x4b {
        Some(KeyEvent::Left)
    } else if scancode == 0x4d {
        Some(KeyEvent::Right)
    } else if scancode == 0x21 {
        Some(KeyEvent::Fullscreen)
    } else if scancode == 0x01 || scancode == 0x10 {
        Some(KeyEvent::Quit)
    } else if 0x02 <= scancode && scancode <= 0x0a {
        Some(KeyEvent::Resolution((scancode - 1) as u8))
    } else {
        None
    }
}

/// The window size a number key requests while windowed (not fullscreen):
/// five steps from 1024x576 up to 3840x2160; other keys resize nothing.
pub open spec fn spec_windowed_size_for_key(key: u8) -> Option<(u32, u32)> {
    if key == 1 {
        Some((1024u32, 576u32))
    } else if key == 2 {
        Some((1280u32, 720u32))
    } else if key == 3 {
        Some((1920u32, 1080u32))
    } else if key == 4 {
        Some((2560u32, 1440u32))
    } else if key == 5 {
        Some((3840u32, 2160u32))
    } else {
        None
    }
}

/// The windowed size requested by a number key, if it requests one.
pub fn windowed_size_for_key(key: u8) -> (r: Option<(u32, u32)>)
    ensures
        r == spec_windowed_size_for_key(key),
{
    if key == 1 {
        Some((1024, 576))
    } else if key == 2 {
        Some((1280, 720))
    } else if key == 3 {
        Some((1920, 1080))
    } else if key == 4 {
        Some((2560, 1440))
    } else if key == 5 {
        Some((3840, 2160))
    } else {
        None
    }
}

} // verus!
