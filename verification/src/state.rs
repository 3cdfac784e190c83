//! The states of a round and the two rules that move between them.
//!
//! A round starts with a countdown. When the countdown runs out, one side
//! lights up and the clock starts; the first arrow key ends the round. A key
//! pressed during the countdown is a false start. Space starts the next round.

use vstd::prelude::*;
use vstd::string::*;
use crate::key::Key;
use crate::side::Side;
use crate::time::{format_time, time_text, NANOS_PER_SECOND};
use crate::view;

verus! {

/// The length of the countdown before a side lights up, in nanoseconds.
pub const COUNTDOWN: u64 = NANOS_PER_SECOND;

/// Where a round stands. All times are in nanoseconds.
#[derive(Clone, Copy, PartialEq, Eq, Debug, Structural)]
pub enum GameState {
    /// Nothing has been played yet.
    Init,
    /// The countdown runs; `remaining_time` is what is left of it.
    Preparing { remaining_time: u64 },
    /// `side` is lit, and has been for `elapsed_time`.
    Running { elapsed_time: u64, side: Side },
    /// A key was pressed during the countdown.
    FalseStart,
    /// The round is over: `side` was lit, the player answered after
    /// `elapsed_time`, and `correct` tells whether the answer was `side`.
    Result { elapsed_time: u64, side: Side, correct: bool },
}

impl GameState {
    /// Whether `dt` more nanoseconds use up the countdown, so that a side
    /// has to be drawn. This is the one moment at which chance enters.
    pub open spec fn cue_due(self, dt: u64) -> bool {
        self matches GameState::Preparing { remaining_time } && dt > remaining_time
    }

    /// Whether Space starts a new round from here.
    pub open spec fn restartable(self) -> bool {
        self is Init || self is FalseStart || self is Result
    }

    /// The state after `dt` nanoseconds have passed. `coin` is the random
    /// bit that picks the side; it matters only where `cue_due` holds.
    ///
    /// The countdown loses `dt`; once `dt` exceeds what is left, the side
    /// lights up and the clock starts at zero, whatever the excess. A running
    /// clock gains `dt` and stops at `u64::MAX`. Time does not act on the
    /// other states.
    pub open spec fn advanced(self, dt: u64, coin: bool) -> GameState {
        match self {
            GameState::Preparing { remaining_time } => if dt > remaining_time {
                GameState::Running { elapsed_time: 0, side: Side::of_coin(coin) }
            } else {
                GameState::Preparing { remaining_time: (remaining_time - dt) as u64 }
            },
            GameState::Running { elapsed_time, side } => GameState::Running {
                elapsed_time: if elapsed_time + dt > u64::MAX {
                    u64::MAX
                } else {
                    (elapsed_time + dt) as u64
                },
                side,
            },
            _ => self,
        }
    }

    /// The state after `key` has been pressed.
    ///
    /// Any key during the countdown is a false start. While a side is lit, an
    /// arrow key ends the round and is correct if it points to that side;
    /// other keys do nothing. Before the first round and after a round, Space
    /// starts the countdown and other keys do nothing.
    pub open spec fn keyed(self, key: Key) -> GameState {
        match self {
            GameState::Preparing { .. } => GameState::FalseStart,
            GameState::Running { elapsed_time, side } => match key.side() {
                Some(answer) => GameState::Result { elapsed_time, side, correct: answer == side },
                None => self,
            },
            _ => if key == Key::Space {
                GameState::Preparing { remaining_time: COUNTDOWN }
            } else {
                self
            },
        }
    }

    /// The line of text that describes this state.
    pub open spec fn text(self) -> Seq<char> {
        match self {
            GameState::Init => "Press <Space> to start"@,
            GameState::Preparing { remaining_time } => "time to start: "@ + time_text(
                remaining_time as nat,
            ),
            GameState::Running { elapsed_time, .. } => "elapsed time: "@ + time_text(
                elapsed_time as nat,
            ),
            GameState::FalseStart => "False start!"@,
            GameState::Result { elapsed_time, correct, .. } => (if correct {
                "You win! Elapsed time: "@
            } else {
                "You lose! Elapsed time: "@
            }) + time_text(elapsed_time as nat),
        }
    }

    /// The side to show brighter: the lit side while the clock runs and in
    /// the result, none otherwise.
    pub open spec fn highlighted_side(self) -> Option<Side> {
        match self {
            GameState::Running { side, .. } => Some(side),
            GameState::Result { side, .. } => Some(side),
            _ => None,
        }
    }

    /// Whether `dt` more nanoseconds end the countdown.
    #[verifier::when_used_as_spec(cue_due)]
    pub fn needs_coin(self, dt: u64) -> (due: bool)
        ensures
            due == self.cue_due(dt),
    {
        match self {
            GameState::Preparing { remaining_time } => dt > remaining_time,
            _ => false,
        }
    }

    /// Lets `dt` nanoseconds pass. `coin` picks the side if the countdown
    /// ends in this step, and is ignored otherwise.
    pub fn advance(self, dt: u64, coin: bool) -> (next: GameState)
        ensures
            next == self.advanced(dt, coin),
    {
        match self {
            GameState::Preparing { remaining_time } => {
                if dt > remaining_time {
                    GameState::Running { elapsed_time: 0, side: Side::from_coin(coin) }
                } else {
                    GameState::Preparing { remaining_time: remaining_time - dt }
                }
            },
            GameState::Running { elapsed_time, side } => GameState::Running {
                elapsed_time: elapsed_time.saturating_add(dt),
                side,
            },
            other => other,
        }
    }

    /// Applies one key press.
    pub fn handle_key(self, key: Key) -> (next: GameState)
        ensures
            next == self.keyed(key),
    {
        match self {
            GameState::Preparing { .. } => GameState::FalseStart,
            GameState::Running { elapsed_time, side } => match key.direction() {
                Some(answer) => GameState::Result { elapsed_time, side, correct: answer == side },
                None => self,
            },
            other => match key {
                Key::Space => GameState::Preparing { remaining_time: COUNTDOWN },
                _ => other,
            },
        }
    }

    /// What to show for this state: its line of text and the side to show
    /// brighter.
    pub fn current_view(&self) -> (frame: view::View)
        ensures
            frame.text@ == self.text(),
            frame.side == self.highlighted_side(),
    {
        match *self {
            GameState::Init => view::View { text: "Press <Space> to start".to_owned(), side: None },
            GameState::Preparing { remaining_time } => {
                let mut text = "time to start: ".to_owned();
                text.append(format_time(remaining_time).as_str());
                view::View { text, side: None }
            },
            GameState::Running { elapsed_time, side } => {
                let mut text = "elapsed time: ".to_owned();
                text.append(format_time(elapsed_time).as_str());
                view::View { text, side: Some(side) }
            },
            GameState::FalseStart => view::View { text: "False start!".to_owned(), side: None },
            GameState::Result { elapsed_time, side, correct } => {
                let mut text = if correct {
                    "You win! Elapsed time: ".to_owned()
                } else {
                    "You lose! Elapsed time: ".to_owned()
                };
                text.append(format_time(elapsed_time).as_str());
                view::View { text, side: Some(side) }
            },
        }
    }
}

} // verus!
