//! What the rules of the game imply, for every input.
//!
//! The laws speak of the same spec functions as the contracts of
//! [`GameState`] and of [`crate::app::App`], so each of them holds of the
//! running game as well.

use vstd::prelude::*;
use crate::key::Key;
use crate::side::Side;
use crate::state::{GameState, COUNTDOWN};

verus! {

/// The sum of the time steps `dts`.
pub open spec fn total(dts: Seq<u64>) -> nat
    decreases dts.len(),
{
    if dts.len() == 0 {
        0
    } else {
        total(dts.drop_last()) + dts.last() as nat
    }
}

/// The state after the time steps `dts` have passed one after the other,
/// where `coins[i]` is the random bit at hand in step `i`.
pub open spec fn advanced_all(state: GameState, dts: Seq<u64>, coins: Seq<bool>) -> GameState
    recommends
        dts.len() == coins.len(),
    decreases dts.len(),
{
    if dts.len() == 0 {
        state
    } else {
        advanced_all(state, dts.drop_last(), coins.drop_last()).advanced(dts.last(), coins.last())
    }
}

/// One whole round: Space, then `dt` nanoseconds in one step, then the key
/// `answer`.
pub open spec fn round_played(state: GameState, dt: u64, coin: bool, answer: Key) -> GameState {
    state.keyed(Key::Space).advanced(dt, coin).keyed(answer)
}

/// The state after the rounds `rounds` have been played one after the
/// other; a round is its time step, its random bit and its answer.
pub open spec fn rounds_played(state: GameState, rounds: Seq<(u64, bool, Key)>) -> GameState
    decreases rounds.len(),
{
    if rounds.len() == 0 {
        state
    } else {
        round_played(
            rounds_played(state, rounds.drop_last()),
            rounds.last().0,
            rounds.last().1,
            rounds.last().2,
        )
    }
}

/// Time does not act on a game that waits for a key: outside the countdown
/// and the running clock a time step leaves the state as it is, and with it
/// the text and the highlight that are shown.
pub proof fn lemma_idle_step_changes_nothing(state: GameState, dt: u64, coin: bool)
    requires
        !(state is Preparing),
        !(state is Running),
    ensures
        state.advanced(dt, coin) == state,
        state.advanced(dt, coin).text() == state.text(),
        state.advanced(dt, coin).highlighted_side() == state.highlighted_side(),
{
}

/// However many time steps pass, a game that waits for a key stays as it is.
pub proof fn lemma_idle_steps_change_nothing(state: GameState, dts: Seq<u64>, coins: Seq<bool>)
    requires
        !(state is Preparing),
        !(state is Running),
    ensures
        advanced_all(state, dts, coins) == state,
    decreases dts.len(),
{
    if dts.len() > 0 {
        lemma_idle_steps_change_nothing(state, dts.drop_last(), coins.drop_last());
    }
}

/// The sum of a prefix of time steps grows with the prefix.
pub proof fn lemma_total_of_prefixes(dts: Seq<u64>, shorter: int, longer: int)
    requires
        0 <= shorter <= longer <= dts.len(),
    ensures
        total(dts.take(shorter)) <= total(dts.take(longer)),
    decreases longer - shorter,
{
    if shorter < longer {
        lemma_total_of_prefixes(dts, shorter, longer - 1);
        assert(dts.take(longer).drop_last() =~= dts.take(longer - 1));
    }
}

/// As long as the time steps add up to no more than what is left of the
/// countdown, the game stays in the countdown, and what is left is the
/// start value less the time that has passed.
pub proof fn lemma_countdown_counts_down(remaining_time: u64, dts: Seq<u64>, coins: Seq<bool>)
    requires
        dts.len() == coins.len(),
        total(dts) <= remaining_time,
    ensures
        advanced_all(GameState::Preparing { remaining_time }, dts, coins) == (GameState::Preparing {
            remaining_time: (remaining_time - total(dts)) as u64,
        }),
    decreases dts.len(),
{
    if dts.len() > 0 {
        lemma_countdown_counts_down(remaining_time, dts.drop_last(), coins.drop_last());
    }
}

/// Under the same condition the countdown never goes up: of two moments
/// during the steps, the later one has no more time left than the earlier.
pub proof fn lemma_countdown_never_rises(
    remaining_time: u64,
    dts: Seq<u64>,
    coins: Seq<bool>,
    earlier: int,
    later: int,
)
    requires
        dts.len() == coins.len(),
        total(dts) <= remaining_time,
        0 <= earlier <= later <= dts.len(),
    ensures
        ({
            let start = GameState::Preparing { remaining_time };
            let before = advanced_all(start, dts.take(earlier), coins.take(earlier));
            let after = advanced_all(start, dts.take(later), coins.take(later));
            &&& before is Preparing
            &&& after is Preparing
            &&& after->remaining_time <= before->remaining_time <= remaining_time
        }),
{
    lemma_total_of_prefixes(dts, earlier, later);
    lemma_total_of_prefixes(dts, later, dts.len() as int);
    assert(dts.take(dts.len() as int) =~= dts);
    lemma_countdown_counts_down(remaining_time, dts.take(earlier), coins.take(earlier));
    lemma_countdown_counts_down(remaining_time, dts.take(later), coins.take(later));
}

/// While a side is lit, time steps that fit into the clock add up on it and
/// leave the side as it is.
pub proof fn lemma_clock_adds_up(elapsed_time: u64, side: Side, dts: Seq<u64>, coins: Seq<bool>)
    requires
        dts.len() == coins.len(),
        elapsed_time + total(dts) <= u64::MAX,
    ensures
        advanced_all(GameState::Running { elapsed_time, side }, dts, coins) == (GameState::Running {
            elapsed_time: (elapsed_time + total(dts)) as u64,
            side,
        }),
    decreases dts.len(),
{
    if dts.len() > 0 {
        lemma_clock_adds_up(elapsed_time, side, dts.drop_last(), coins.drop_last());
    }
}

/// An arrow key ends a running round. The result keeps the lit side and the
/// time on the clock at that moment, it is correct exactly if the key points
/// to the lit side, and no time that passes afterwards changes it.
pub proof fn lemma_answer_freezes_result(
    elapsed_time: u64,
    side: Side,
    key: Key,
    dts: Seq<u64>,
    coins: Seq<bool>,
)
    requires
        key == Key::Left || key == Key::Right,
    ensures
        ({
            let result = (GameState::Running { elapsed_time, side }).keyed(key);
            &&& result == GameState::Result { elapsed_time, side, correct: key.side() == Some(side) }
            &&& advanced_all(result, dts, coins) == result
        }),
{
    lemma_idle_steps_change_nothing(
        (GameState::Running { elapsed_time, side }).keyed(key),
        dts,
        coins,
    );
}

/// Any key during the countdown, Space included, is a false start, and time
/// that passes after it changes nothing.
pub proof fn lemma_early_key_is_false_start(
    remaining_time: u64,
    key: Key,
    dts: Seq<u64>,
    coins: Seq<bool>,
)
    ensures
        ({
            let next = (GameState::Preparing { remaining_time }).keyed(key);
            &&& next == GameState::FalseStart
            &&& advanced_all(next, dts, coins) == next
        }),
{
    lemma_idle_steps_change_nothing(GameState::FalseStart, dts, coins);
}

/// After a false start or a result, Space starts a full countdown and every
/// other key leaves the state as it is.
pub proof fn lemma_space_restarts(state: GameState, key: Key)
    requires
        state is FalseStart || state is Result,
    ensures
        key == Key::Space ==> state.keyed(key) == (GameState::Preparing {
            remaining_time: COUNTDOWN,
        }),
        key != Key::Space ==> state.keyed(key) == state,
{
}

/// A round that is played through ends in a result: from a state in which
/// Space starts a round, Space, a time step longer than the countdown and an
/// arrow key lead to the result with a clock at zero, and the next round can
/// start from there.
pub proof fn lemma_round_trip(state: GameState, dt: u64, coin: bool, answer: Key)
    requires
        state.restartable(),
        dt > COUNTDOWN,
        answer == Key::Left || answer == Key::Right,
    ensures
        state.keyed(Key::Space) == (GameState::Preparing { remaining_time: COUNTDOWN }),
        state.keyed(Key::Space).advanced(dt, coin) == (GameState::Running {
            elapsed_time: 0,
            side: Side::of_coin(coin),
        }),
        round_played(state, dt, coin, answer) == (GameState::Result {
            elapsed_time: 0,
            side: Side::of_coin(coin),
            correct: answer.side() == Some(Side::of_coin(coin)),
        }),
        round_played(state, dt, coin, answer).restartable(),
        round_played(state, dt, coin, answer).keyed(Key::Space) == state.keyed(Key::Space),
{
}

/// Rounds can be played without end: after any number of rounds that are
/// played through, the game is again in a state from which Space starts the
/// next one.
pub proof fn lemma_rounds_never_stall(state: GameState, rounds: Seq<(u64, bool, Key)>)
    requires
        state.restartable(),
        forall|i: int|
            0 <= i < rounds.len() ==> (#[trigger] rounds[i]).0 > COUNTDOWN && (rounds[i].2
                == Key::Left || rounds[i].2 == Key::Right),
    ensures
        rounds_played(state, rounds).restartable(),
        rounds.len() > 0 ==> rounds_played(state, rounds) is Result,
    decreases rounds.len(),
{
    if rounds.len() > 0 {
        lemma_rounds_never_stall(state, rounds.drop_last());
        lemma_round_trip(
            rounds_played(state, rounds.drop_last()),
            rounds.last().0,
            rounds.last().1,
            rounds.last().2,
        );
    }
}

} // verus!
