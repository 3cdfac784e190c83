use left_right::app::App;
use left_right::key::Key;
use left_right::side::Side;
use left_right::state::{GameState, COUNTDOWN};
use rand::{SeedableRng, StdRng};

const MS: u64 = 1_000_000;

fn seeded(seed: usize) -> StdRng {
    let words = [seed, 2, 3, 4];
    StdRng::from_seed(&words[..])
}

fn lit_side(app: &App) -> Side {
    match app.game_state() {
        GameState::Running { elapsed_time: 0, side } => side,
        other => panic!("no side is lit: {:?}", other),
    }
}

#[test]
fn new_game_waits_for_space() {
    let app = App::new(seeded(1));
    assert_eq!(app.game_state(), GameState::Init);
    assert_eq!(app.view().text, "Press <Space> to start");
    assert_eq!(app.view().side, None);
}

#[test]
fn time_before_the_first_round_changes_nothing() {
    let mut app = App::new(seeded(1));
    let before = app.view();
    app.update(16 * MS);
    app.update(5000 * MS);
    assert_eq!(app.game_state(), GameState::Init);
    assert_eq!(app.view(), before);
}

#[test]
fn countdown_then_cue() {
    let mut app = App::new(seeded(7));
    app.key(Key::Space);
    assert_eq!(app.game_state(), GameState::Preparing { remaining_time: COUNTDOWN });
    app.update(950 * MS);
    assert_eq!(app.game_state(), GameState::Preparing { remaining_time: 50 * MS });
    assert_eq!(app.view().text, "time to start: 0.05");
    app.update(100 * MS);
    let side = lit_side(&app);
    assert!(side == Side::Left || side == Side::Right);
    assert_eq!(app.view().text, "elapsed time: 0.00");
    assert_eq!(app.view().side, Some(side));
}

#[test]
fn same_seed_lights_the_same_side() {
    for seed in 0..20 {
        let mut first = App::new(seeded(seed));
        let mut second = App::new(seeded(seed));
        for app in [&mut first, &mut second] {
            app.key(Key::Space);
            app.update(COUNTDOWN + 1);
        }
        assert_eq!(lit_side(&first), lit_side(&second));
    }
}

#[test]
fn both_sides_come_up() {
    let mut app = App::new(seeded(11));
    let mut lefts = 0;
    let mut rights = 0;
    for _ in 0..200 {
        app.key(Key::Space);
        app.update(COUNTDOWN + 1);
        match lit_side(&app) {
            Side::Left => lefts += 1,
            Side::Right => rights += 1,
        }
        app.key(Key::Left);
    }
    assert_eq!(lefts + rights, 200);
    assert!(lefts > 0);
    assert!(rights > 0);
}

#[test]
fn answer_is_judged_against_the_lit_side() {
    for seed in 0..20 {
        let mut app = App::new(seeded(seed));
        app.key(Key::Space);
        app.update(COUNTDOWN + 1);
        let side = lit_side(&app);
        app.update(200 * MS);
        app.update(148 * MS);
        app.key(Key::Left);
        assert_eq!(
            app.game_state(),
            GameState::Result { elapsed_time: 348 * MS, side, correct: side == Side::Left }
        );
        let text = if side == Side::Left {
            "You win! Elapsed time: 0.35"
        } else {
            "You lose! Elapsed time: 0.35"
        };
        assert_eq!(app.view().text, text);
        assert_eq!(app.view().side, Some(side));
        let result = app.game_state();
        app.update(16 * MS);
        app.update(3000 * MS);
        assert_eq!(app.game_state(), result);
    }
}

#[test]
fn key_in_the_countdown_ends_the_round() {
    for key in [Key::Left, Key::Right, Key::Space, Key::Other] {
        let mut app = App::new(seeded(3));
        app.key(Key::Space);
        app.update(400 * MS);
        app.key(key);
        assert_eq!(app.game_state(), GameState::FalseStart);
        assert_eq!(app.view().text, "False start!");
        app.update(2000 * MS);
        assert_eq!(app.game_state(), GameState::FalseStart);
        app.key(Key::Other);
        assert_eq!(app.game_state(), GameState::FalseStart);
        app.key(Key::Space);
        assert_eq!(app.game_state(), GameState::Preparing { remaining_time: COUNTDOWN });
    }
}

#[test]
fn many_rounds_in_a_row() {
    let mut app = App::new(seeded(5));
    for round in 0..500u64 {
        app.key(Key::Space);
        assert_eq!(app.game_state(), GameState::Preparing { remaining_time: COUNTDOWN });
        app.update(600 * MS);
        app.update(401 * MS);
        let side = lit_side(&app);
        app.update(round * MS);
        let answer = if round % 2 == 0 { Key::Left } else { Key::Right };
        app.key(answer);
        assert_eq!(
            app.game_state(),
            GameState::Result {
                elapsed_time: round * MS,
                side,
                correct: answer.direction() == Some(side),
            }
        );
    }
}

#[test]
fn keys_do_not_use_up_the_random_source() {
    let mut plain = App::new(seeded(9));
    let mut busy = App::new(seeded(9));
    for _ in 0..50 {
        plain.key(Key::Space);
        plain.update(COUNTDOWN + 1);
        busy.update(16 * MS);
        busy.key(Key::Other);
        busy.key(Key::Space);
        busy.update(500 * MS);
        busy.update(500 * MS);
        busy.update(0);
        busy.update(1);
        assert_eq!(lit_side(&plain), lit_side(&busy));
        plain.key(Key::Right);
        busy.key(Key::Right);
        busy.update(16 * MS);
        assert_eq!(plain.game_state(), busy.game_state());
    }
}
