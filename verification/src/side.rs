//! The two sides of the playing field.

use vstd::prelude::*;

verus! {

/// One half of the playing field: the half that lights up, or the half that
/// an arrow key points to.
#[derive(Clone, Copy, PartialEq, Eq, Debug, Structural)]
pub enum Side {
    Left,
    Right,
}

impl Side {
    /// The side that a random bit selects: `true` is left, `false` is right.
    pub open spec fn of_coin(coin: bool) -> Side {
        if coin {
            Side::Left
        } else {
            Side::Right
        }
    }

    /// Turns one random bit into the side that lights up.
    #[verifier::when_used_as_spec(of_coin)]
    pub fn from_coin(coin: bool) -> (side: Side)
        ensures
            side == Side::of_coin(coin),
    {
        if coin {
            Side::Left
        } else {
            Side::Right
        }
    }
}

} // verus!
