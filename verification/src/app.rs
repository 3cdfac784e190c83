//! The game as a front end drives it: the current state together with the
//! random source that picks the side.

use rand::{Rng, StdRng};
use vstd::prelude::*;
use crate::key::Key;
use crate::state::GameState;
use crate::view;

verus! {

/// `rand::StdRng`, the generator that the game draws from. Verus sees it as
/// an opaque value.
#[verifier::external_type_specification]
#[verifier::external_body]
pub struct ExStdRng(StdRng);

/// Draws one random bit with `rand::Rng::gen::<bool>` on a `rand::StdRng`.
///
/// The call always returns and moves the generator on. Nothing is claimed
/// about the bit or about the generator afterwards.
#[verifier::external_body]
fn next_coin(rng: &mut StdRng) -> (coin: bool) {
    rng.gen()
}

/// A game in progress. It owns its state and its random source; the state
/// changes only through [`App::update`] and [`App::key`].
pub struct App {
    game_state: GameState,
    rng: StdRng,
}

impl App {
    /// The state that the game is in.
    pub closed spec fn state(&self) -> GameState {
        self.game_state
    }

    /// The random source as it stands.
    pub closed spec fn source(&self) -> StdRng {
        self.rng
    }

    /// A game that has not started yet and will draw its sides from `rng`.
    pub fn new(rng: StdRng) -> (app: App)
        ensures
            app.state() == GameState::Init,
            app.source() == rng,
    {
        App { game_state: GameState::Init, rng }
    }

    /// The state that the game is in.
    pub fn game_state(&self) -> (state: GameState)
        ensures
            state == self.state(),
    {
        self.game_state
    }

    /// Lets `dt` nanoseconds pass.
    ///
    /// The new state is `advanced(dt, coin)` of the old one. Where the
    /// countdown ends in this step, `coin` is a bit drawn from the random
    /// source, so either side may light up; in every other case the step
    /// does not depend on `coin` and the random source is left alone.
    pub fn update(&mut self, dt: u64)
        ensures
            final(self).state() == old(self).state().advanced(dt, true) || final(self).state()
                == old(self).state().advanced(dt, false),
            !old(self).state().cue_due(dt) ==> final(self).source() == old(self).source(),
    {
        let coin = if self.game_state.needs_coin(dt) {
            next_coin(&mut self.rng)
        } else {
            false
        };
        self.game_state = self.game_state.advance(dt, coin);
    }

    /// Applies one key press. The random source is not touched.
    pub fn key(&mut self, key: Key)
        ensures
            final(self).state() == old(self).state().keyed(key),
            final(self).source() == old(self).source(),
    {
        self.game_state = self.game_state.handle_key(key);
    }

    /// What to show for the current state.
    pub fn view(&self) -> (frame: view::View)
        ensures
            frame.text@ == self.state().text(),
            frame.side == self.state().highlighted_side(),
    {
        self.game_state.current_view()
    }
}

} // verus!
