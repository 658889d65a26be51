//! Platform-neutral window and input vocabulary, together with the verified
//! decision logic of the Win32 and X11 backends: key and button translation
//! tables, native message decoding and event selection.
use vstd::prelude::*;

pub mod events;
pub mod inputs;
pub mod win32;
pub mod x11;

verus! {

/// An unsigned pair, used both for window positions and for sizes.
#[derive(Debug, Clone, Copy, PartialEq, Eq, Structural)]
pub struct Rect {
    pub x: u16,
    pub y: u16,
}

impl Rect {
    pub fn new(x: u16, y: u16) -> (r: Rect)
        ensures
            r.x == x,
            r.y == y,
    {
        Rect { x, y }
    }

    /// The pair as the signed 16-bit coordinates that native window positions
    /// take; none where a coordinate is 2^15 or more, which would stand for a
    /// negative position.
    pub fn as_native_position(&self) -> (r: Option<(i16, i16)>)
        ensures
            r is Some <==> self.x <= 0x7FFF && self.y <= 0x7FFF,
            r matches Some(p) ==> p.0 as int == self.x && p.1 as int == self.y,
    {
        if self.x <= 0x7FFF && self.y <= 0x7FFF {
            Some((self.x as i16, self.y as i16))
        } else {
            None
        }
    }
}

} // verus!
