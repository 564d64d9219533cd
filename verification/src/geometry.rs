//! Plain integer geometry and colour values shared by the canvas and its
//! collaborators.

use vstd::prelude::*;

verus! {

/// The quotient of `n` by a positive `d`, rounded toward zero.
pub open spec fn toward_zero(n: int, d: int) -> int {
    if n >= 0 {
        n / d
    } else {
        -((-n) / d)
    }
}

/// Integer division as the machine does it: rounded toward zero.
pub fn div_toward_zero(n: i32, d: i32) -> (q: i32)
    requires
        d > 0,
    ensures
        q == toward_zero(n as int, d as int),
{
    n / d
}

/// A point, or a displacement, on the integer grid.
#[derive(Clone, Copy, Debug, PartialEq, Eq, Structural)]
pub struct Position {
    pub x: i32,
    pub y: i32,
}

impl Position {
    /// Whether `self + by` can be held in a `Position`.
    pub open spec fn can_move(self, by: Position) -> bool {
        &&& i32::MIN <= self.x + by.x <= i32::MAX
        &&& i32::MIN <= self.y + by.y <= i32::MAX
    }

    /// The position displaced by `by`, where `can_move` holds.
    pub open spec fn spec_moved(self, by: Position) -> Position {
        Position { x: (self.x + by.x) as i32, y: (self.y + by.y) as i32 }
    }

    pub fn new(x: i32, y: i32) -> (p: Position)
        ensures
            p.x == x,
            p.y == y,
    {
        Position { x, y }
    }

    pub fn zero() -> (p: Position)
        ensures
            p.x == 0,
            p.y == 0,
    {
        Position { x: 0, y: 0 }
    }

    /// Whether `moved` can be called without leaving the range of `i32`.
    pub fn fits(self, by: Position) -> (ok: bool)
        ensures
            ok == self.can_move(by),
    {
        self.x.checked_add(by.x).is_some() && self.y.checked_add(by.y).is_some()
    }

    /// The position displaced by `by`.
    pub fn moved(self, by: Position) -> (p: Position)
        requires
            self.can_move(by),
        ensures
            p == self.spec_moved(by),
            p.x == self.x + by.x,
            p.y == self.y + by.y,
    {
        Position { x: self.x + by.x, y: self.y + by.y }
    }
}

/// The extent of a rectangle.
#[derive(Clone, Copy, Debug, PartialEq, Eq, Structural)]
pub struct Size {
    pub width: i32,
    pub height: i32,
}

impl Size {
    /// Number of cells of a grid of this size.
    pub open spec fn area(self) -> int {
        self.width * self.height
    }

    /// Neither side is negative.
    pub open spec fn is_extent(self) -> bool {
        self.width >= 0 && self.height >= 0
    }

    /// Whether `(x, y)` addresses a cell of a grid of this size.
    pub open spec fn holds(self, at: Position) -> bool {
        0 <= at.x < self.width && 0 <= at.y < self.height
    }

    pub fn new(width: i32, height: i32) -> (s: Size)
        ensures
            s.width == width,
            s.height == height,
    {
        Size { width, height }
    }
}

/// One RGBA cell.
#[derive(Clone, Copy, Debug, PartialEq, Eq, Structural)]
pub struct Pixel {
    pub r: u8,
    pub g: u8,
    pub b: u8,
    pub a: u8,
}

impl Pixel {
    pub open spec fn spec_white() -> Pixel {
        Pixel { r: 255, g: 255, b: 255, a: 255 }
    }

    pub open spec fn spec_transparent() -> Pixel {
        Pixel { r: 0, g: 0, b: 0, a: 0 }
    }

    #[verifier::when_used_as_spec(spec_white)]
    pub fn white() -> (p: Pixel)
        ensures
            p == Pixel::spec_white(),
    {
        Pixel { r: 255, g: 255, b: 255, a: 255 }
    }

    #[verifier::when_used_as_spec(spec_transparent)]
    pub fn transparent() -> (p: Pixel)
        ensures
            p == Pixel::spec_transparent(),
    {
        Pixel { r: 0, g: 0, b: 0, a: 0 }
    }
}

/// Where a pixel buffer is to be placed by whoever draws it: an offset, the
/// extent it covers, and a depth hint (a larger `z_index` lies further back).
#[derive(Clone, Copy, Debug, PartialEq, Eq, Structural)]
pub struct Sprite {
    pub position: Position,
    pub size: Size,
    pub z_index: i32,
}

} // verus!
