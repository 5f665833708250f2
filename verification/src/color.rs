//! Plain colour and geometry values that the drawing code works on.

use vstd::prelude::*;

verus! {

/// A 24-bit colour with eight bits per channel.
#[derive(Clone, Copy, Debug, PartialEq, Eq, Structural)]
pub struct Rgb888 {
    pub r: u8,
    pub g: u8,
    pub b: u8,
}

impl Rgb888 {
    /// The largest value of the red channel.
    pub const MAX_R: u8 = 255;

    /// The largest value of the green channel.
    pub const MAX_G: u8 = 255;

    /// The largest value of the blue channel.
    pub const MAX_B: u8 = 255;

    pub fn new(r: u8, g: u8, b: u8) -> (c: Self)
        ensures
            c == (Rgb888 { r, g, b }),
    {
        Rgb888 { r, g, b }
    }

    pub fn r(&self) -> (v: u8)
        ensures
            v == self.r,
    {
        self.r
    }

    pub fn g(&self) -> (v: u8)
        ensures
            v == self.g,
    {
        self.g
    }

    pub fn b(&self) -> (v: u8)
        ensures
            v == self.b,
    {
        self.b
    }

    pub fn black() -> (c: Self)
        ensures
            c == (Rgb888 { r: 0, g: 0, b: 0 }),
    {
        Rgb888 { r: 0, g: 0, b: 0 }
    }

    pub fn white() -> (c: Self)
        ensures
            c == (Rgb888 { r: 255, g: 255, b: 255 }),
    {
        Rgb888 { r: 255, g: 255, b: 255 }
    }

    pub fn red() -> (c: Self)
        ensures
            c == (Rgb888 { r: 255, g: 0, b: 0 }),
    {
        Rgb888 { r: 255, g: 0, b: 0 }
    }

    pub fn green() -> (c: Self)
        ensures
            c == (Rgb888 { r: 0, g: 255, b: 0 }),
    {
        Rgb888 { r: 0, g: 255, b: 0 }
    }

    pub fn blue() -> (c: Self)
        ensures
            c == (Rgb888 { r: 0, g: 0, b: 255 }),
    {
        Rgb888 { r: 0, g: 0, b: 255 }
    }

    pub fn yellow() -> (c: Self)
        ensures
            c == (Rgb888 { r: 255, g: 255, b: 0 }),
    {
        Rgb888 { r: 255, g: 255, b: 0 }
    }

    /// The web colour "hot pink".
    pub fn css_hot_pink() -> (c: Self)
        ensures
            c == (Rgb888 { r: 255, g: 105, b: 180 }),
    {
        Rgb888 { r: 255, g: 105, b: 180 }
    }

    /// The web colour "brown".
    pub fn css_brown() -> (c: Self)
        ensures
            c == (Rgb888 { r: 165, g: 42, b: 42 }),
    {
        Rgb888 { r: 165, g: 42, b: 42 }
    }

    /// The web colour "dark green".
    pub fn css_dark_green() -> (c: Self)
        ensures
            c == (Rgb888 { r: 0, g: 100, b: 0 }),
    {
        Rgb888 { r: 0, g: 100, b: 0 }
    }
}

/// A position on the panel; the origin is the top left corner.
#[derive(Clone, Copy, Debug, PartialEq, Eq, Structural)]
pub struct Point {
    pub x: i32,
    pub y: i32,
}

impl Point {
    pub fn new(x: i32, y: i32) -> (p: Self)
        ensures
            p == (Point { x, y }),
    {
        Point { x, y }
    }
}

/// A width and a height, in pixels.
#[derive(Clone, Copy, Debug, PartialEq, Eq, Structural)]
pub struct Size {
    pub width: u32,
    pub height: u32,
}

impl Size {
    pub fn new(width: u32, height: u32) -> (s: Self)
        ensures
            s == (Size { width, height }),
    {
        Size { width, height }
    }
}

/// One coloured point.
#[derive(Clone, Copy, Debug, PartialEq, Eq, Structural)]
pub struct Pixel(pub Point, pub Rgb888);

} // verus!
