use vstd::prelude::*;
use crate::errors::Error;

verus! {

/// One sampled pointer position, in screen pixels.
#[derive(Clone, Copy, Debug, PartialEq, Eq, Structural)]
pub struct MousePosition {
    pub x: i32,
    pub y: i32,
}

impl MousePosition {
    pub fn new(tuple: (i32, i32)) -> (r: MousePosition)
        ensures
            r.x == tuple.0,
            r.y == tuple.1,
    {
        MousePosition { x: tuple.0, y: tuple.1 }
    }

    /// The position reported when the pointer cannot be read; it touches no corner.
    pub fn invalid() -> (r: MousePosition)
        ensures
            r.x == -1,
            r.y == -1,
    {
        MousePosition { x: -1, y: -1 }
    }

    pub open spec fn is_origin(self) -> bool {
        self.x == 0 && self.y == 0
    }
}

/// The size of the primary display.
#[derive(Clone, Copy, Debug, PartialEq, Eq, Structural)]
pub struct ScreenSize {
    pub max_width: u32,
    pub max_height: u32,
}

impl ScreenSize {
    pub open spec fn wf(self) -> bool {
        self.max_width > 0 && self.max_height > 0
    }

    /// Builds the bounds from the primary display's width and height, if one was found.
    /// A missing display, or one with a zero side, is refused.
    pub fn new(primary: Option<(u32, u32)>) -> (r: Result<ScreenSize, Error>)
        ensures
            match primary {
                Some(d) => if d.0 > 0 && d.1 > 0 {
                    r == Ok::<ScreenSize, Error>(ScreenSize { max_width: d.0, max_height: d.1 })
                } else {
                    r == Err::<ScreenSize, Error>(Error::ScreenSizeError)
                },
                None => r == Err::<ScreenSize, Error>(Error::ScreenSizeError),
            },
            r matches Ok(s) ==> s.wf(),
    {
        match primary {
            Some(d) => {
                if d.0 > 0 && d.1 > 0 {
                    Ok(ScreenSize { max_width: d.0, max_height: d.1 })
                } else {
                    Err(Error::ScreenSizeError)
                }
            },
            None => Err(Error::ScreenSizeError),
        }
    }
}

} // verus!
