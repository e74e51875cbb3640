use crate::board::{Direction, Point, interior};
use crate::round::{Key, RoundState, Signal, frame, start_point, well_formed};
use vstd::prelude::*;

verus! {

/// Where the session stands.
#[derive(Clone, Copy, Debug, PartialEq, Eq, Structural)]
pub enum Phase {
    Playing,
    GameOverPrompt,
    Terminated,
}

/// The player's answer at the game-over prompt.
#[derive(Clone, Copy, Debug, PartialEq, Eq, Structural)]
pub enum Outcome {
    Quit,
    Restart,
}

/// The answer that a key gives at the prompt, if any: `r` or `R` restarts,
/// Esc quits, anything else is ignored.
pub open spec fn prompt_answer(key: Key) -> Option<Outcome> {
    match key {
        Key::Char(c) => if c == 'r' || c == 'R' {
            Some(Outcome::Restart)
        } else {
            None
        },
        Key::Esc => Some(Outcome::Quit),
        _ => None,
    }
}

/// The phase after a round reports `s`.
pub open spec fn after_signal(s: Signal) -> Phase {
    match s {
        Signal::Continue => Phase::Playing,
        Signal::Died => Phase::GameOverPrompt,
        Signal::Quit => Phase::Terminated,
    }
}

/// The phase after the prompt reads `key`.
pub open spec fn after_prompt(key: Key) -> Phase {
    match prompt_answer(key) {
        Some(Outcome::Restart) => Phase::Playing,
        Some(Outcome::Quit) => Phase::Terminated,
        None => Phase::GameOverPrompt,
    }
}

/// The decision of the game-over prompt on one key.
pub fn game_over_screen(key: Key) -> (r: Option<Outcome>)
    ensures
        r == prompt_answer(key),
{
    match key {
        Key::Char(c) => if c == 'r' || c == 'R' {
            Some(Outcome::Restart)
        } else {
            None
        },
        Key::Esc => Some(Outcome::Quit),
        _ => None,
    }
}

/// Rounds in sequence with the prompt between them.
pub struct Session {
    pub phase: Phase,
    pub round: RoundState,
}

impl Session {
    /// A session at time `now`, playing a fresh round.
    pub fn start(now: u64) -> (r: Session)
        ensures
            r.phase == Phase::Playing,
            r.round@.snake == seq![start_point()],
            interior(r.round.food),
            r.round.last_tick == now,
            well_formed(r.round@),
    {
        Session { phase: Phase::Playing, round: RoundState::new(now) }
    }

    /// One iteration of play; the phase follows what the round reports.
    pub fn on_frame(&mut self, key: Option<Key>, now: u64) -> (r: Signal)
        requires
            old(self).phase == Phase::Playing,
            well_formed(old(self).round@),
        ensures
            final(self).phase == after_signal(r),
            exists|fresh: Point|
                interior(fresh) && (final(self).round@, r) == #[trigger] frame(
                    old(self).round@,
                    key,
                    now,
                    fresh,
                ),
            well_formed(final(self).round@),
    {
        let r = self.round.advance(key, now);
        self.phase = match r {
            Signal::Continue => Phase::Playing,
            Signal::Died => Phase::GameOverPrompt,
            Signal::Quit => Phase::Terminated,
        };
        r
    }

    /// One key at the game-over prompt: a restart begins a fresh round at
    /// time `now`, Esc ends the session, other keys change nothing.
    pub fn on_prompt_key(&mut self, key: Key, now: u64) -> (r: Option<Outcome>)
        requires
            old(self).phase == Phase::GameOverPrompt,
            well_formed(old(self).round@),
        ensures
            r == prompt_answer(key),
            final(self).phase == after_prompt(key),
            r == Some(Outcome::Restart) ==> {
                &&& final(self).round@.snake == seq![start_point()]
                &&& final(self).round.dir == Direction::Right
                &&& final(self).round.last_tick == now
                &&& interior(final(self).round.food)
            },
            r != Some(Outcome::Restart) ==> final(self).round@ == old(self).round@,
            well_formed(final(self).round@),
    {
        let r = game_over_screen(key);
        match r {
            Some(Outcome::Restart) => {
                self.round = RoundState::new(now);
                self.phase = Phase::Playing;
            },
            Some(Outcome::Quit) => {
                self.phase = Phase::Terminated;
            },
            None => {},
        }
        r
    }
}

} // verus!
