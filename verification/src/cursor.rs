//! The cursor: the one cell of the grid that the next edit applies to.

use vstd::prelude::*;
use crate::geometry::{div_toward_zero, toward_zero, Pixel, Position, Size, Sprite};

verus! {

/// The editing position and the colour it is highlighted in. The position
/// is not held to the grid: the cursor may stand outside it.
#[derive(Clone, Copy, Debug, PartialEq, Eq, Structural)]
pub struct Cursor {
    pub position: Position,
    pub color: Pixel,
}

impl Cursor {
    /// Where a new cursor stands.
    pub open spec fn start() -> Position {
        Position { x: 16, y: 16 }
    }

    /// The colour of the cursor: opaque red.
    pub open spec fn highlight() -> Pixel {
        Pixel { r: 255, g: 0, b: 0, a: 255 }
    }

    /// The position of the cursor seen from a frame that is shifted by half
    /// of `offset`, as mathematical integers.
    pub open spec fn spec_offset(&self, offset: Position) -> (int, int) {
        (
            self.position.x - toward_zero(offset.x as int, 2),
            self.position.y - toward_zero(offset.y as int, 2),
        )
    }

    /// Whether `spec_offset` can be held in a `Position`.
    pub open spec fn can_offset(&self, offset: Position) -> bool {
        &&& i32::MIN <= self.spec_offset(offset).0 <= i32::MAX
        &&& i32::MIN <= self.spec_offset(offset).1 <= i32::MAX
    }

    pub fn new() -> (cursor: Cursor)
        ensures
            cursor.position == Cursor::start(),
            cursor.color == Cursor::highlight(),
    {
        Cursor { position: Position::new(16, 16), color: Pixel { r: 255, g: 0, b: 0, a: 255 } }
    }

    /// The position of the cursor seen from a frame that is shifted by half
    /// of `offset`.
    pub fn offset(&self, offset: Position) -> (at: Position)
        requires
            self.can_offset(offset),
        ensures
            (at.x as int, at.y as int) == self.spec_offset(offset),
    {
        Position {
            x: self.position.x - div_toward_zero(offset.x, 2),
            y: self.position.y - div_toward_zero(offset.y, 2),
        }
    }

    /// Where to place the cursor's one cell for a frame shifted by half of
    /// `offset`: in front of the layers.
    pub fn offset_sprite(&self, offset: Position) -> (sprite: Sprite)
        requires
            self.can_offset(offset),
        ensures
            (sprite.position.x as int, sprite.position.y as int) == self.spec_offset(offset),
            sprite.size == (Size { width: 1, height: 1 }),
            sprite.z_index == 9,
    {
        Sprite { position: self.offset(offset), size: Size::new(1, 1), z_index: 9 }
    }

    pub fn position(&self) -> (at: Position)
        ensures
            at == self.position,
    {
        self.position
    }
}

} // verus!
