//! How a player, human or computer, expresses actions to the rules.

use vstd::prelude::*;

verus! {

/// A request to buy the shop catalog item at `item_index`.
#[derive(Debug, Clone, Copy, PartialEq, Eq, Structural)]
pub struct PurchaseRequest {
    pub item_index: usize,
}

/// The direction the player wants to move, one step per axis (-1, 0 or 1);
/// normalized by the movement system.
#[derive(Debug, Clone, Copy, PartialEq, Eq, Structural)]
pub struct MoveDirection {
    pub x: i8,
    pub y: i8,
}

/// Translates the WASD keys into the player's move direction.
pub struct KeyboardIntentPlugin;

impl KeyboardIntentPlugin {
    /// The move direction for the held keys: W up, S down, A left, D right;
    /// opposite keys cancel.
    pub fn direction(w: bool, a: bool, s: bool, d: bool) -> (dir: MoveDirection)
        ensures
            dir.y == (if w { 1int } else { 0int }) - (if s { 1int } else { 0int }),
            dir.x == (if d { 1int } else { 0int }) - (if a { 1int } else { 0int }),
    {
        let mut x: i8 = 0;
        let mut y: i8 = 0;
        if w {
            y = y + 1;
        }
        if s {
            y = y - 1;
        }
        if a {
            x = x - 1;
        }
        if d {
            x = x + 1;
        }
        MoveDirection { x, y }
    }
}

} // verus!
