use vstd::prelude::*;

verus! {

/// A rectangle of terminal cells.
#[derive(Clone, Copy, Debug, PartialEq, Eq, Structural)]
pub struct Area {
    pub x: u16,
    pub y: u16,
    pub width: u16,
    pub height: u16,
}

/// The largest extent that starts at `start` and stays within the `u16` range.
pub open spec fn clamp_extent(start: u16, extent: u16) -> u16 {
    if extent as int > u16::MAX - start {
        (u16::MAX - start) as u16
    } else {
        extent
    }
}

impl Area {
    /// An area whose right and bottom edges stay within the `u16` range.
    pub open spec fn fits(self) -> bool {
        self.x + self.width <= u16::MAX && self.y + self.height <= u16::MAX
    }

    /// This area with its width and height shrunk so that it fits.
    pub open spec fn clamped(self) -> Area {
        Area { x: self.x, y: self.y, width: clamp_extent(self.x, self.width), height: clamp_extent(self.y, self.height) }
    }

    /// Builds an area, shrinking the width and height so that it fits.
    pub fn new(x: u16, y: u16, width: u16, height: u16) -> (r: Area)
        ensures
            r == (Area { x, y, width, height }).clamped(),
            r.fits(),
    {
        let max_width = u16::MAX - x;
        let max_height = u16::MAX - y;
        let width = if width > max_width { max_width } else { width };
        let height = if height > max_height { max_height } else { height };
        Area { x, y, width, height }
    }
}

} // verus!
