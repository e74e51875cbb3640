use crate::board::{
    Direction, Point, dx, dy, interior, on_border, random_food, step_point, lemma_unit_step,
};
use vstd::prelude::*;

verus! {

/// Milliseconds between two simulation steps.
pub const TICK_MS: u64 = 150;

/// A key press, as far as the game tells keys apart.
#[derive(Clone, Copy, Debug, PartialEq, Eq, Structural)]
pub enum Key {
    Up,
    Down,
    Left,
    Right,
    Esc,
    Char(char),
    Other,
}

/// What one iteration of the round reports.
#[derive(Clone, Copy, Debug, PartialEq, Eq, Structural)]
pub enum Signal {
    Continue,
    Died,
    Quit,
}

/// One playthrough: the snake (head first), the food, the heading and the
/// time of the last step, in milliseconds of the caller's monotonic clock.
pub struct RoundState {
    pub snake: Vec<Point>,
    pub food: Point,
    pub dir: Direction,
    pub last_tick: u64,
}

/// The mathematical picture of a round.
pub ghost struct RoundModel {
    pub snake: Seq<Point>,
    pub food: Point,
    pub dir: Direction,
    pub last_tick: u64,
}

impl View for RoundState {
    type V = RoundModel;

    open spec fn view(&self) -> RoundModel {
        RoundModel { snake: self.snake@, food: self.food, dir: self.dir, last_tick: self.last_tick }
    }
}

/// Where every round begins: a one-segment snake here, heading right.
pub open spec fn start_point() -> Point {
    Point { x: 5, y: 5 }
}

/// A round in play: a non-empty snake and the food, all strictly inside the wall.
pub open spec fn well_formed(m: RoundModel) -> bool {
    &&& m.snake.len() > 0
    &&& forall|i: int| 0 <= i < m.snake.len() ==> interior(#[trigger] m.snake[i])
    &&& interior(m.food)
}

/// The heading that `key` asks for; keys other than arrows keep `cur`.
pub open spec fn key_dir(key: Key, cur: Direction) -> Direction {
    match key {
        Key::Up => Direction::Up,
        Key::Down => Direction::Down,
        Key::Left => Direction::Left,
        Key::Right => Direction::Right,
        _ => cur,
    }
}

/// The round after reading at most one key (no key: unchanged).
pub open spec fn steered(m: RoundModel, key: Option<Key>) -> RoundModel {
    match key {
        Some(k) => RoundModel { dir: key_dir(k, m.dir), ..m },
        None => m,
    }
}

/// Time since the last step; a clock reading before it counts as none.
pub open spec fn elapsed(m: RoundModel, now: u64) -> int {
    if now >= m.last_tick {
        now - m.last_tick
    } else {
        0
    }
}

/// Whether a step is due at time `now`.
pub open spec fn tick_due(m: RoundModel, now: u64) -> bool {
    elapsed(m, now) >= TICK_MS
}

/// The cell the head moves to on the next step.
pub open spec fn next_head(m: RoundModel) -> Point {
    step_point(m.snake[0], m.dir)
}

/// Whether the next step eats the food.
pub open spec fn eats(m: RoundModel) -> bool {
    next_head(m) == m.food
}

/// One step at time `now`; `fresh` is where food goes if it is eaten.
pub open spec fn ticked(m: RoundModel, now: u64, fresh: Point) -> (RoundModel, Signal) {
    let h = next_head(m);
    if on_border(h) {
        (m, Signal::Died)
    } else if eats(m) {
        (RoundModel { snake: seq![h] + m.snake, food: fresh, last_tick: now, ..m }, Signal::Continue)
    } else {
        (
            RoundModel { snake: (seq![h] + m.snake).drop_last(), last_tick: now, ..m },
            Signal::Continue,
        )
    }
}

/// One iteration: read the key, then step if one is due.
pub open spec fn frame(m: RoundModel, key: Option<Key>, now: u64, fresh: Point) -> (
    RoundModel,
    Signal,
) {
    if key == Some(Key::Esc) {
        (m, Signal::Quit)
    } else {
        let s = steered(m, key);
        if tick_due(s, now) {
            ticked(s, now, fresh)
        } else {
            (s, Signal::Continue)
        }
    }
}

impl RoundState {
    /// A fresh round at time `now` with the food at `food`.
    pub fn with_food(food: Point, now: u64) -> (r: RoundState)
        requires
            interior(food),
        ensures
            r@.snake == seq![start_point()],
            r.food == food,
            r.dir == Direction::Right,
            r.last_tick == now,
            well_formed(r@),
    {
        let mut snake: Vec<Point> = Vec::new();
        snake.push(Point { x: 5, y: 5 });
        proof {
            assert(snake@ =~= seq![start_point()]);
        }
        RoundState { snake, food, dir: Direction::Right, last_tick: now }
    }

    /// A fresh round at time `now` with the food placed at random.
    pub fn new(now: u64) -> (r: RoundState)
        ensures
            r@.snake == seq![start_point()],
            interior(r.food),
            r.dir == Direction::Right,
            r.last_tick == now,
            well_formed(r@),
    {
        let food = random_food();
        RoundState::with_food(food, now)
    }

    /// The snake's head.
    pub fn head(&self) -> (r: Point)
        requires
            well_formed(self@),
        ensures
            r == self@.snake[0],
    {
        self.snake[0]
    }

    /// The snake's length.
    pub fn len(&self) -> (r: usize)
        ensures
            r == self@.snake.len(),
    {
        self.snake.len()
    }

    /// Input phase: Esc asks to quit (returns true), an arrow sets the heading.
    pub fn apply_key(&mut self, key: Option<Key>) -> (quit: bool)
        ensures
            quit == (key == Some(Key::Esc)),
            !quit ==> final(self)@ == steered(old(self)@, key),
            quit ==> final(self)@ == old(self)@,
    {
        match key {
            Some(Key::Esc) => true,
            Some(Key::Up) => {
                self.dir = Direction::Up;
                false
            },
            Some(Key::Down) => {
                self.dir = Direction::Down;
                false
            },
            Some(Key::Left) => {
                self.dir = Direction::Left;
                false
            },
            Some(Key::Right) => {
                self.dir = Direction::Right;
                false
            },
            _ => false,
        }
    }

    /// Whether a step is due at time `now`.
    pub fn is_due(&self, now: u64) -> (r: bool)
        ensures
            r == tick_due(self@, now),
    {
        let elapsed: u64 = if now >= self.last_tick {
            now - self.last_tick
        } else {
            0
        };
        elapsed >= TICK_MS
    }

    /// The cell the head moves to on the next step.
    pub fn next_head(&self) -> (r: Point)
        requires
            well_formed(self@),
        ensures
            r == next_head(self@),
    {
        self.snake[0].moved(self.dir)
    }

    /// Tick phase: move the head one cell, die on the wall, grow on food
    /// (which goes to `fresh`), else drop the tail.
    pub fn tick_with_food(&mut self, now: u64, fresh: Point) -> (r: Signal)
        requires
            well_formed(old(self)@),
            interior(fresh),
        ensures
            (final(self)@, r) == ticked(old(self)@, now, fresh),
            well_formed(final(self)@),
    {
        let head = self.next_head();
        proof {
            lemma_unit_step(self.snake@[0], self.dir);
        }
        if head.on_border() {
            return Signal::Died;
        }
        let ghost before = self.snake@;
        self.snake.insert(0, head);
        proof {
            assert(self.snake@ =~= seq![head] + before);
        }
        if head == self.food {
            self.food = fresh;
        } else {
            self.snake.pop();
        }
        self.last_tick = now;
        proof {
            assert forall|i: int| 0 <= i < self.snake@.len() implies interior(
                #[trigger] self.snake@[i],
            ) by {
                if i > 0 {
                    assert(self.snake@[i] == before[i - 1]);
                }
            }
        }
        Signal::Continue
    }

    /// One iteration with the food's next place given: read `key`, then
    /// step if one is due at time `now`.
    pub fn advance_with(&mut self, key: Option<Key>, now: u64, fresh: Point) -> (r: Signal)
        requires
            well_formed(old(self)@),
            interior(fresh),
        ensures
            (final(self)@, r) == frame(old(self)@, key, now, fresh),
            well_formed(final(self)@),
    {
        if self.apply_key(key) {
            return Signal::Quit;
        }
        if self.is_due(now) {
            self.tick_with_food(now, fresh)
        } else {
            Signal::Continue
        }
    }

    /// One iteration: read `key`, then step if one is due at time `now`;
    /// food that is eaten moves to a random cell inside the wall.
    pub fn advance(&mut self, key: Option<Key>, now: u64) -> (r: Signal)
        requires
            well_formed(old(self)@),
        ensures
            exists|fresh: Point|
                interior(fresh) && (final(self)@, r) == #[trigger] frame(
                    old(self)@,
                    key,
                    now,
                    fresh,
                ),
            well_formed(final(self)@),
    {
        let ghost start = self@;
        if self.apply_key(key) {
            assert(frame(start, key, now, self.food) == (self@, Signal::Quit));
            return Signal::Quit;
        }
        if !self.is_due(now) {
            assert(frame(start, key, now, self.food) == (self@, Signal::Continue));
            return Signal::Continue;
        }
        let head = self.next_head();
        let fresh = if head == self.food {
            random_food()
        } else {
            self.food
        };
        let r = self.tick_with_food(now, fresh);
        assert(frame(start, key, now, fresh) == (self@, r));
        r
    }
}

} // verus!
