use crate::board::{Direction, Point, dx, dy, interior, on_border, lemma_unit_step, step_point};
use crate::round::{
    Key, RoundModel, Signal, TICK_MS, eats, frame, key_dir, next_head, steered, tick_due,
    well_formed,
};
use crate::session::{Phase, after_signal};
use vstd::prelude::*;

verus! {

/// On every step the head moves by the current heading: exactly one
/// coordinate changes, by exactly one cell, and a step that does not hit the
/// wall puts the new head there.
pub proof fn lemma_movement(m: RoundModel, key: Option<Key>, now: u64, fresh: Point)
    requires
        well_formed(m),
        interior(fresh),
        key != Some(Key::Esc),
        tick_due(steered(m, key), now),
    ensures
        ({
            let s = steered(m, key);
            let h = next_head(s);
            &&& h.x as int == s.snake[0].x + dx(s.dir)
            &&& h.y as int == s.snake[0].y + dy(s.dir)
            &&& (h.x == s.snake[0].x) != (h.y == s.snake[0].y)
            &&& !on_border(h) ==> frame(m, key, now, fresh).0.snake[0] == h
        }),
{
    let s = steered(m, key);
    lemma_unit_step(s.snake[0], s.dir);
}

/// On every step that does not hit the wall, eating the food adds one segment
/// and moves the food strictly inside the wall; otherwise the length and the
/// food stay as they were.
pub proof fn lemma_length(m: RoundModel, key: Option<Key>, now: u64, fresh: Point)
    requires
        well_formed(m),
        interior(fresh),
        key != Some(Key::Esc),
        tick_due(steered(m, key), now),
        !on_border(next_head(steered(m, key))),
    ensures
        ({
            let s = steered(m, key);
            let n = frame(m, key, now, fresh).0;
            &&& eats(s) ==> n.snake.len() == m.snake.len() + 1 && n.food == fresh && interior(
                n.food,
            )
            &&& !eats(s) ==> n.snake.len() == m.snake.len() && n.food == m.food
        }),
{
}

/// A step reports death exactly when the new head is on the wall, and no
/// iteration without a step ever does.
pub proof fn lemma_collision(m: RoundModel, key: Option<Key>, now: u64, fresh: Point)
    requires
        well_formed(m),
        interior(fresh),
    ensures
        (frame(m, key, now, fresh).1 == Signal::Died) == (key != Some(Key::Esc) && tick_due(
            steered(m, key),
            now,
        ) && on_border(next_head(steered(m, key)))),
{
}

/// Before the step interval has passed an iteration moves nothing: the snake,
/// the food and the time of the last step stay, and nobody dies.
pub proof fn lemma_tick_gating(m: RoundModel, key: Option<Key>, now: u64, fresh: Point)
    requires
        well_formed(m),
        interior(fresh),
        !tick_due(m, now),
    ensures
        frame(m, key, now, fresh).0.snake == m.snake,
        frame(m, key, now, fresh).0.food == m.food,
        frame(m, key, now, fresh).0.last_tick == m.last_tick,
        frame(m, key, now, fresh).1 != Signal::Died,
{
}

/// A step at time `now` is the only one until the interval has passed again:
/// a second iteration less than the interval later moves nothing.
pub proof fn lemma_one_step_per_interval(
    m: RoundModel,
    key: Option<Key>,
    now: u64,
    fresh: Point,
    key2: Option<Key>,
    now2: u64,
    fresh2: Point,
)
    requires
        well_formed(m),
        interior(fresh),
        interior(fresh2),
        key != Some(Key::Esc),
        tick_due(steered(m, key), now),
        frame(m, key, now, fresh).1 == Signal::Continue,
        now <= now2 < now + TICK_MS,
    ensures
        frame(m, key, now, fresh).0.last_tick == now,
        frame(frame(m, key, now, fresh).0, key2, now2, fresh2).0.snake == frame(
            m,
            key,
            now,
            fresh,
        ).0.snake,
        frame(frame(m, key, now, fresh).0, key2, now2, fresh2).1 != Signal::Died,
{
}

/// An arrow key read in an iteration sets the heading whatever it was before,
/// a reversal included, and a step in the same iteration already follows it.
pub proof fn lemma_input(m: RoundModel, k: Key, now: u64, fresh: Point, d: Direction)
    requires
        well_formed(m),
        interior(fresh),
        k == Key::Up || k == Key::Down || k == Key::Left || k == Key::Right,
    ensures
        frame(m, Some(k), now, fresh).0.dir == key_dir(k, d),
        tick_due(m, now) && !on_border(next_head(steered(m, Some(k)))) ==> frame(
            m,
            Some(k),
            now,
            fresh,
        ).0.snake[0] == step_point(m.snake[0], key_dir(k, d)),
{
}

/// Death during play always leads to the prompt, never straight to the end;
/// quitting during play always ends the session without the prompt.
pub proof fn lemma_session_transitions(s: Signal)
    ensures
        s == Signal::Died ==> after_signal(s) == Phase::GameOverPrompt,
        s == Signal::Quit ==> after_signal(s) == Phase::Terminated,
        after_signal(s) == Phase::Terminated ==> s == Signal::Quit,
{
}

} // verus!
