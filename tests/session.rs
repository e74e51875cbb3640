use snake_game::board::{Direction, Point, HEIGHT, WIDTH};
use snake_game::round::{Key, RoundState, Signal};
use snake_game::session::{game_over_screen, Outcome, Phase, Session};

fn at_prompt() -> Session {
    let round = RoundState {
        snake: vec![Point::new(12, 7), Point::new(11, 7)],
        food: Point::new(3, 3),
        dir: Direction::Up,
        last_tick: 900,
    };
    Session { phase: Phase::GameOverPrompt, round }
}

#[test]
fn scenario_d_restart() {
    let mut s = at_prompt();
    assert_eq!(s.on_prompt_key(Key::Char('r'), 1000), Some(Outcome::Restart));
    assert_eq!(s.phase, Phase::Playing);
    assert_eq!(s.round.len(), 1);
    assert_eq!(s.round.head(), Point::new(5, 5));
    assert_eq!(s.round.dir, Direction::Right);
    assert_eq!(s.round.last_tick, 1000);
    assert!(s.round.food.x >= 1 && s.round.food.x < WIDTH);
    assert!(s.round.food.y >= 1 && s.round.food.y < HEIGHT);
}

#[test]
fn scenario_d_escape_quits() {
    let mut s = at_prompt();
    assert_eq!(s.on_prompt_key(Key::Esc, 1000), Some(Outcome::Quit));
    assert_eq!(s.phase, Phase::Terminated);
}

#[test]
fn prompt_ignores_other_keys() {
    let mut s = at_prompt();
    assert_eq!(s.on_prompt_key(Key::Char('x'), 1000), None);
    assert_eq!(s.on_prompt_key(Key::Up, 1000), None);
    assert_eq!(s.phase, Phase::GameOverPrompt);
    assert_eq!(s.round.len(), 2);
    assert_eq!(s.round.last_tick, 900);
}

#[test]
fn prompt_decisions() {
    assert_eq!(game_over_screen(Key::Char('r')), Some(Outcome::Restart));
    assert_eq!(game_over_screen(Key::Char('R')), Some(Outcome::Restart));
    assert_eq!(game_over_screen(Key::Esc), Some(Outcome::Quit));
    assert_eq!(game_over_screen(Key::Char('q')), None);
    assert_eq!(game_over_screen(Key::Other), None);
}

#[test]
fn death_leads_to_prompt() {
    let mut s = Session::start(0);
    assert_eq!(s.phase, Phase::Playing);
    s.round.snake = vec![Point::new(39, 5)];
    s.round.food = Point::new(3, 3);
    assert_eq!(s.on_frame(None, 150), Signal::Died);
    assert_eq!(s.phase, Phase::GameOverPrompt);
}

#[test]
fn quit_during_play_terminates() {
    let mut s = Session::start(0);
    assert_eq!(s.on_frame(Some(Key::Esc), 10), Signal::Quit);
    assert_eq!(s.phase, Phase::Terminated);
}

#[test]
fn play_continues_between_steps() {
    let mut s = Session::start(0);
    assert_eq!(s.on_frame(None, 10), Signal::Continue);
    assert_eq!(s.phase, Phase::Playing);
    assert_eq!(s.round.head(), Point::new(5, 5));
}
