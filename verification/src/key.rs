//! The keys that the game tells apart.

use vstd::prelude::*;
use crate::side::Side;

verus! {

/// A key press as the game sees it. Every key that has no meaning in the
/// game is `Other`.
#[derive(Clone, Copy, PartialEq, Eq, Debug, Structural)]
pub enum Key {
    Left,
    Right,
    Space,
    Other,
}

impl Key {
    /// The side that an arrow key points to; `None` for every other key.
    pub open spec fn side(self) -> Option<Side> {
        match self {
            Key::Left => Some(Side::Left),
            Key::Right => Some(Side::Right),
            Key::Space => None,
            Key::Other => None,
        }
    }

    /// The side that this key answers with, if it is an arrow key.
    #[verifier::when_used_as_spec(side)]
    pub fn direction(self) -> (answer: Option<Side>)
        ensures
            answer == self.side(),
    {
        match self {
            Key::Left => Some(Side::Left),
            Key::Right => Some(Side::Right),
            Key::Space => None,
            Key::Other => None,
        }
    }
}

} // verus!
