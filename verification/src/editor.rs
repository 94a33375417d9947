use vstd::prelude::*;
use crate::position::{clamp, Position};

verus! {

/// The cursor state of a session: the current position, and the anchor
/// ("last") position captured when a two-point shape gesture begins.
#[derive(Debug)]
pub struct Editor {
    pub current_position: Position,
    pub last_position: Position,
}

impl Editor {
    pub fn new(start_position: Position) -> (e: Editor)
        ensures
            e.current_position == start_position,
            e.last_position == (Position { x: 0, y: 0 }),
    {
        Editor { current_position: start_position, last_position: Position::new(0, 0) }
    }

    /// Translates the current position by `offset`, then clamps each
    /// axis independently into `[0, borders.x]` and `[0, borders.y]`
    /// (the borders are the largest legal coordinates, inclusive).
    pub fn move_position(&mut self, offset: Position, borders: Position)
        requires
            0 <= borders.x && 0 <= borders.y,
            i16::MIN <= old(self).current_position.x + offset.x <= i16::MAX,
            i16::MIN <= old(self).current_position.y + offset.y <= i16::MAX,
        ensures
            final(self).current_position.x == clamp(
                old(self).current_position.x + offset.x,
                0,
                borders.x as int,
            ),
            final(self).current_position.y == clamp(
                old(self).current_position.y + offset.y,
                0,
                borders.y as int,
            ),
            final(self).last_position == old(self).last_position,
    {
        self.current_position.x = self.current_position.x + offset.x;
        self.current_position.y = self.current_position.y + offset.y;

        if self.current_position.x < 0 {
            self.current_position.x = 0;
        }
        if self.current_position.x > borders.x {
            self.current_position.x = borders.x;
        }
        if self.current_position.y < 0 {
            self.current_position.y = 0;
        }
        if self.current_position.y > borders.y {
            self.current_position.y = borders.y;
        }
    }

    /// Captures the current position as the anchor.
    pub fn set_last_position(&mut self)
        ensures
            final(self).last_position == old(self).current_position,
            final(self).current_position == old(self).current_position,
    {
        self.last_position = self.current_position;
    }

    pub fn get_position(&self) -> (p: Position)
        ensures
            p == self.current_position,
    {
        self.current_position
    }

    pub fn get_last_position(&self) -> (p: Position)
        ensures
            p == self.last_position,
    {
        self.last_position
    }
}

} // verus!
