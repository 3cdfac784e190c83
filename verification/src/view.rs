//! What a front end needs in order to paint one frame.

use vstd::prelude::*;
use crate::side::Side;

verus! {

/// The red level of a field that is not highlighted, in thousandths of full
/// intensity.
pub const BASE_LEVEL: u16 = 500;

/// How far the two fields move away from `BASE_LEVEL` when one of them is
/// highlighted, in thousandths of full intensity.
pub const LEVEL_BIAS: u16 = 125;

/// One frame: a line of text and the side to show brighter, if any.
#[derive(PartialEq, Eq, Debug)]
pub struct View {
    pub text: String,
    pub side: Option<Side>,
}

/// The red levels of the left and the right field, in this order, for a
/// given highlight: the highlighted field is brighter by `LEVEL_BIAS`, the
/// other one darker by as much, and without a highlight both are at
/// `BASE_LEVEL`.
pub open spec fn levels_for(side: Option<Side>) -> (u16, u16) {
    match side {
        Some(Side::Left) => ((BASE_LEVEL + LEVEL_BIAS) as u16, (BASE_LEVEL - LEVEL_BIAS) as u16),
        Some(Side::Right) => ((BASE_LEVEL - LEVEL_BIAS) as u16, (BASE_LEVEL + LEVEL_BIAS) as u16),
        None => (BASE_LEVEL, BASE_LEVEL),
    }
}

impl View {
    /// The red levels of the left and the right field, in thousandths of
    /// full intensity.
    pub fn levels(&self) -> (levels: (u16, u16))
        ensures
            levels == levels_for(self.side),
    {
        match self.side {
            Some(Side::Left) => (BASE_LEVEL + LEVEL_BIAS, BASE_LEVEL - LEVEL_BIAS),
            Some(Side::Right) => (BASE_LEVEL - LEVEL_BIAS, BASE_LEVEL + LEVEL_BIAS),
            None => (BASE_LEVEL, BASE_LEVEL),
        }
    }
}

} // verus!
