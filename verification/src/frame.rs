use vstd::prelude::*;

verus! {

/// A rectangle of a window, by its top left corner and its size.
#[derive(Clone, Copy, Debug, PartialEq, Eq, Structural)]
pub struct Rect {
    pub x: i32,
    pub y: i32,
    pub width: u32,
    pub height: u32,
}

/// How the picture of 64 by 32 pixels lies in a window: squares of
/// `pixel_size` from the left edge, centred between two bands of
/// `gutter` rows. In a window too low for the picture the gutter is
/// negative.
#[derive(Clone, Copy, Debug, PartialEq, Eq, Structural)]
pub struct Frame {
    pub width: u32,
    pub height: u32,
    pub pixel_size: u32,
    pub gutter: i32,
}

/// Half of `d`, rounded toward zero.
pub open spec fn half_toward_zero(d: int) -> int {
    if d >= 0 {
        d / 2
    } else {
        -((-d) / 2)
    }
}

/// The side of one pixel in a window `width` wide.
pub open spec fn pixel_size_for(width: int) -> int {
    width / 64
}

/// The height of the band above the picture in a window of the given size.
pub open spec fn gutter_for(width: int, height: int) -> int {
    half_toward_zero(height - 32 * pixel_size_for(width))
}

/// The window's size when the program starts: 64 by 32 pixels of the size
/// that fits 64 times into 800.
pub fn window_size() -> (size: (u32, u32))
    ensures
        size == (768u32, 384u32),
{
    let pixel_size: u32 = 800 / 64;
    (pixel_size * 64, pixel_size * 32)
}

impl Frame {
    /// The frame belongs to a window whose sides fit a signed 32-bit
    /// number.
    pub open spec fn wf(self) -> bool {
        &&& self.width <= i32::MAX
        &&& self.height <= i32::MAX
        &&& self.pixel_size == pixel_size_for(self.width as int)
        &&& self.gutter == gutter_for(self.width as int, self.height as int)
    }

    /// The frame for a window of the given size.
    pub fn new(width: u32, height: u32) -> (frame: Frame)
        requires
            width <= i32::MAX,
            height <= i32::MAX,
        ensures
            frame.wf(),
            frame.width == width,
            frame.height == height,
    {
        let pixel_size = width / 64;
        let gutter: i32 = (height as i32 - (pixel_size as i32 * 32)) / 2;
        Frame { width, height, pixel_size, gutter }
    }

    /// The part of the window between the two bands, which takes the
    /// background colour.
    pub fn background(&self) -> (rect: Rect)
        requires
            self.wf(),
        ensures
            rect.x == 0,
            rect.y == self.gutter,
            rect.width == self.width,
            rect.height == self.height - 2 * self.gutter,
            32 * self.pixel_size - 1 <= rect.height <= 32 * self.pixel_size + 1,
    {
        Rect {
            x: 0,
            y: self.gutter,
            width: self.width,
            height: (self.height as i32 - (2 * self.gutter)) as u32,
        }
    }

    /// The square of the pixel in column `column` of row `row`.
    pub fn pixel(&self, column: u8, row: u8) -> (rect: Rect)
        requires
            self.wf(),
            column < 64,
            row < 32,
        ensures
            rect.x == column * self.pixel_size,
            rect.y == row * self.pixel_size + self.gutter,
            rect.width == self.pixel_size,
            rect.height == self.pixel_size,
            rect.x + rect.width <= self.width,
            self.gutter <= rect.y,
            rect.y + rect.height <= self.gutter + 32 * self.pixel_size,
    {
        let size = self.pixel_size as i32;
        assert(0 <= column * size <= 63 * size && 0 <= row * size <= 31 * size)
            by (nonlinear_arith)
            requires
                0 <= column <= 63,
                0 <= row <= 31,
                0 <= size,
        ;
        let x: i32 = column as i32 * size;
        let y: i32 = (row as i32 * size) + self.gutter;
        Rect { x, y, width: self.pixel_size, height: self.pixel_size }
    }
}

} // verus!
