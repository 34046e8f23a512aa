use rand::Rng;
use vstd::prelude::*;

use crate::snake::{block_at, opposite_of, start_body, Direction, Snake, SnakeView};

verus! {

/// Time is counted in microseconds. The snake steps on its own once this much
/// has passed since the last step.
pub const MOVING_PERIOD: u64 = 100_000;

/// After the snake dies, the game restarts once this much time has passed.
pub const RESTART_TIME: u64 = 1_000_000;

/// The snake's start cell: its tail stands there, its head two cells right.
pub const START_X: i32 = 2;
pub const START_Y: i32 = 2;

/// Where the food stands in a new game, and after a restart.
pub const FIRST_FOOD_X: i32 = 4;
pub const FIRST_FOOD_Y: i32 = 6;

/// Random cells tried for new food before the board is scanned in order.
pub const FOOD_TRIES: u32 = 100;

/// Relies on rand 0.7's `Rng::gen_range` on `thread_rng()`: a value in
/// `[lo, hi)`; it panics when `lo >= hi`, which `requires` rules out.
#[verifier::external_body]
fn random_coordinate(lo: i32, hi: i32) -> (r: i32)
    requires
        lo < hi,
    ensures
        lo <= r < hi,
{
    rand::thread_rng().gen_range(lo, hi)
}

/// What a game is. `waiting` counts microseconds since the last step of the
/// snake, or since its death.
pub struct GameView {
    pub snake: SnakeView,
    pub food_exists: bool,
    pub food: (int, int),
    pub width: int,
    pub height: int,
    pub game_over: bool,
    pub waiting: nat,
}

/// The snake of a new game, or of one just restarted.
pub open spec fn start_snake() -> SnakeView {
    SnakeView {
        direction: Direction::Right,
        body: start_body(START_X as int, START_Y as int),
        tail: None,
    }
}

impl GameView {
    /// A new game on a board of `width` by `height` cells, border included.
    pub open spec fn start(width: int, height: int) -> GameView {
        GameView {
            snake: start_snake(),
            food_exists: true,
            food: (FIRST_FOOD_X as int, FIRST_FOOD_Y as int),
            width,
            height,
            game_over: false,
            waiting: 0,
        }
    }

    /// Every reachable state: the board's sides fit in `i32`, the body is not
    /// empty, the head can step in every direction within `i32`, and the food
    /// stands on no segment but the last.
    pub open spec fn wf(self) -> bool {
        &&& self.width <= i32::MAX && self.height <= i32::MAX
        &&& self.snake.body.len() > 0
        &&& i32::MIN < self.snake.head().x < i32::MAX
        &&& i32::MIN < self.snake.head().y < i32::MAX
        &&& self.food_exists ==> !self.snake.occupies(self.food)
    }

    /// `c` lies strictly inside the border ring.
    pub open spec fn inside(self, c: (int, int)) -> bool {
        0 < c.0 < self.width - 1 && 0 < c.1 < self.height - 1
    }

    /// Some cell inside the border holds no segment but perhaps the last.
    pub open spec fn has_free_cell(self) -> bool {
        exists|c: (int, int)| self.inside(c) && !#[trigger] self.snake.occupies(c)
    }

    /// A step with heading override `dir` keeps the snake alive.
    pub open spec fn survives(self, dir: Option<Direction>) -> bool {
        let c = self.snake.next_cell(dir);
        !self.snake.occupies(c) && self.inside(c)
    }

    /// The game after the head has stepped: if it landed on the food, the food
    /// is gone and the snake grows by its removed segment.
    pub open spec fn after_eating(self) -> GameView {
        if self.food_exists && self.snake.head().cell() == self.food {
            GameView { snake: self.snake.restored(), food_exists: false, ..self }
        } else {
            self
        }
    }

    /// The game after a movement attempt with heading override `dir`.
    pub open spec fn after_move(self, dir: Option<Direction>) -> GameView {
        if self.survives(dir) {
            GameView { snake: self.snake.moved(dir), waiting: 0, ..self }.after_eating()
        } else {
            GameView { game_over: true, waiting: 0, ..self }
        }
    }

    /// The game after a key press with direction `dir` (`None`: a key that
    /// names no direction).
    pub open spec fn after_key(self, dir: Option<Direction>) -> GameView {
        if self.game_over || dir.is_none() || dir.unwrap() == opposite_of(self.snake.direction) {
            self
        } else {
            self.after_move(dir)
        }
    }

    /// The game restarted: a new game on the same board.
    pub open spec fn restarted(self) -> GameView {
        GameView::start(self.width, self.height)
    }

    /// The game once `delta` more microseconds have been counted; the count
    /// stops at `u64::MAX`.
    pub open spec fn waited(self, delta: nat) -> GameView {
        let w = self.waiting + delta;
        GameView { waiting: if w > u64::MAX { u64::MAX as nat } else { w }, ..self }
    }

    /// `placed` is `self` after an attempt to place food: new food stands inside
    /// the border on no segment but the last, and there is food whenever there
    /// was room for it.
    pub open spec fn food_placed(self, placed: GameView) -> bool {
        &&& placed == GameView { food_exists: placed.food_exists, food: placed.food, ..self }
        &&& placed.food_exists ==> self.inside(placed.food) && !self.snake.occupies(placed.food)
        &&& !placed.food_exists ==> placed.food == self.food
        &&& self.has_free_cell() ==> placed.food_exists
    }

    /// The game after the clock check of a living snake: it steps on once the
    /// moving period has passed.
    pub open spec fn ticked(self) -> GameView {
        if self.waiting > MOVING_PERIOD {
            self.after_move(None)
        } else {
            self
        }
    }

    /// The game after the clock check of a dead snake.
    pub open spec fn ticked_dead(self) -> GameView {
        if self.waiting > RESTART_TIME {
            self.restarted()
        } else {
            self
        }
    }
}

pub struct Game {
    pub snake: Snake,
    pub food_exists: bool,
    pub food_position: (i32, i32),
    pub width: i32,
    pub height: i32,
    pub game_over: bool,
    pub waiting_time: u64,
}

impl View for Game {
    type V = GameView;

    open spec fn view(&self) -> GameView {
        GameView {
            snake: self.snake@,
            food_exists: self.food_exists,
            food: (self.food_position.0 as int, self.food_position.1 as int),
            width: self.width as int,
            height: self.height as int,
            game_over: self.game_over,
            waiting: self.waiting_time as nat,
        }
    }
}


/// A step that keeps the snake alive keeps the game well formed; in particular
/// the food, where there is some, still stands on no segment but the last.
pub proof fn lemma_move_keeps_wf(g: GameView, dir: Option<Direction>)
    requires
        g.wf(),
        g.survives(dir),
    ensures
        g.after_move(dir).wf(),
{
    let s = g.snake.moved(dir);
    let c = g.snake.next_cell(dir);
    assert(s.body[0] == block_at(c));
    if g.food_exists && s.head().cell() != g.food {
        if s.occupies(g.food) {
            let i = choose|i: int| 0 <= i < s.body.len() - 1 && (#[trigger] s.body[i]).cell() == g.food;
            assert(i > 0);
            assert(s.body[i] == g.snake.body[i - 1]);
            assert(g.snake.occupies(g.food));
        }
    }
    if g.food_exists && s.head().cell() == g.food {
        assert(s.restored().body[0] == s.body[0]);
    }
}

impl Game {
    pub open spec fn wf(&self) -> bool {
        self@.wf()
    }

    /// A new game on a board of `width` by `height` cells, border included.
    pub fn new(width: i32, height: i32) -> (r: Game)
        ensures
            r@ == GameView::start(width as int, height as int),
            r.wf(),
    {
        let r = Game {
            width,
            height,
            snake: Snake::new(START_X, START_Y),
            waiting_time: 0,
            food_position: (FIRST_FOOD_X, FIRST_FOOD_Y),
            food_exists: true,
            game_over: false,
        };
        assert(!r@.snake.occupies(r@.food)) by {
            assert(forall|i: int| 0 <= i < r@.snake.body.len() ==> (#[trigger] r@.snake.body[i]).y == START_Y);
        }
        r
    }

    /// Whether a step with heading override `dir` keeps the snake alive.
    pub fn check_if_snake_is_alive(&self, dir: Option<Direction>) -> (r: bool)
        requires
            self.wf(),
        ensures
            r == self@.survives(dir),
    {
        let (x, y) = self.snake.next_head(dir);
        if self.snake.overlap_tails(x, y) {
            return false;
        }
        0 < y && 0 < x && (x as i64) < (self.width as i64) - 1 && (y as i64) < (self.height as i64) - 1
    }

    /// Eats the food if the head stands on it.
    pub fn check_eating(&mut self)
        requires
            old(self)@.snake.body.len() > 0,
            old(self)@.snake.tail.is_some(),
        ensures
            final(self)@ == old(self)@.after_eating(),
    {
        let (x, y) = self.snake.head_position();
        if self.food_exists && self.food_position.0 == x && self.food_position.1 == y {
            self.food_exists = false;
            self.snake.restore_tail();
        }
    }

    /// One movement attempt with heading override `dir`: the snake steps and
    /// maybe eats, or dies. The clock starts again either way.
    pub fn update_snake(&mut self, dir: Option<Direction>)
        requires
            old(self).wf(),
        ensures
            final(self).wf(),
            final(self)@ == old(self)@.after_move(dir),
    {
        proof {
            if self@.survives(dir) {
                lemma_move_keeps_wf(self@, dir);
            }
        }
        if self.check_if_snake_is_alive(dir) {
            self.snake.move_foward(dir);
            self.waiting_time = 0;
            self.check_eating();
        } else {
            self.game_over = true;
            self.waiting_time = 0;
        }
    }

    /// Handles a key press; `dir` is the key's direction, `None` for a key that
    /// names none. Ignored while the game is over, for no direction, and for
    /// the direction opposite the heading; otherwise the snake steps that way.
    pub fn key_pressed(&mut self, dir: Option<Direction>)
        requires
            old(self).wf(),
        ensures
            final(self).wf(),
            final(self)@ == old(self)@.after_key(dir),
    {
        if self.game_over {
            return;
        }
        match dir {
            None => {},
            Some(d) => {
                if d == self.snake.head_direction().opposite() {
                    return;
                }
                self.update_snake(dir);
            },
        }
    }

    /// Puts the game back to its start state on the same board.
    pub fn restart(&mut self)
        ensures
            final(self)@ == old(self)@.restarted(),
            final(self).wf(),
    {
        self.snake = Snake::new(START_X, START_Y);
        self.waiting_time = 0;
        self.food_exists = true;
        self.food_position = (FIRST_FOOD_X, FIRST_FOOD_Y);
        self.game_over = false;
        assert(!self@.snake.occupies(self@.food)) by {
            assert(forall|i: int| 0 <= i < self@.snake.body.len() ==> (#[trigger] self@.snake.body[i]).y == START_Y);
        }
    }
}

impl Game {
    /// Whether food may stand at `(x, y)`: inside the border and on no segment
    /// but the last.
    pub fn food_fits(&self, x: i32, y: i32) -> (r: bool)
        ensures
            r == (self@.inside((x as int, y as int)) && !self@.snake.occupies((x as int, y as int))),
    {
        0 < x && 0 < y && (x as i64) < (self.width as i64) - 1 && (y as i64) < (self.height as i64) - 1
            && !self.snake.overlap_tails(x, y)
    }

    /// The first cell, column by column, where food may stand; `None` when the
    /// board has no room.
    pub fn first_free_cell(&self) -> (r: Option<(i32, i32)>)
        ensures
            r.is_none() <==> !self@.has_free_cell(),
            r matches Some(c) ==> self@.inside((c.0 as int, c.1 as int)) && !self@.snake.occupies(
                (c.0 as int, c.1 as int),
            ),
            r matches Some(c) ==> forall|d: (int, int)|
                self@.inside(d) && (d.0 < c.0 || (d.0 == c.0 && d.1 < c.1)) ==> #[trigger] self@.snake.occupies(d),
    {
        let g = Ghost(self@);
        let mut x: i32 = 1;
        while (x as i64) < (self.width as i64) - 1
            invariant
                g@ == self@,
                1 <= x,
                x <= self.width - 1 || x == 1,
                forall|c: (int, int)| g@.inside(c) && c.0 < x ==> #[trigger] g@.snake.occupies(c),
            decreases self.width - x,
        {
            let mut y: i32 = 1;
            while (y as i64) < (self.height as i64) - 1
                invariant
                    g@ == self@,
                    1 <= x < self.width - 1,
                    1 <= y,
                    y <= self.height - 1 || y == 1,
                    forall|c: (int, int)| g@.inside(c) && c.0 < x ==> #[trigger] g@.snake.occupies(c),
                    forall|yy: int| 1 <= yy < y ==> #[trigger] g@.snake.occupies((x as int, yy)),
                decreases self.height - y,
            {
                if !self.snake.overlap_tails(x, y) {
                    assert forall|d: (int, int)|
                        g@.inside(d) && (d.0 < x || (d.0 == x && d.1 < y)) implies #[trigger] g@.snake.occupies(d) by {
                        if d.0 == x {
                            assert(d == (x as int, d.1));
                        }
                    }
                    return Some((x, y));
                }
                y = y + 1;
            }
            assert forall|c: (int, int)| g@.inside(c) && c.0 < x + 1 implies #[trigger] g@.snake.occupies(c) by {
                if c.0 == x {
                    assert(c == (x as int, c.1));
                }
            }
            x = x + 1;
        }
        None
    }

    /// Up to `FOOD_TRIES` random cells inside the border, the first one where
    /// food may stand; `None` when none of them was such a cell.
    fn random_free_cell(&self) -> (r: Option<(i32, i32)>)
        ensures
            r matches Some(c) ==> self@.inside((c.0 as int, c.1 as int)) && !self@.snake.occupies(
                (c.0 as int, c.1 as int),
            ),
    {
        if (self.width as i64) - 1 <= 1 || (self.height as i64) - 1 <= 1 {
            return None;
        }
        let mut tries: u32 = 0;
        while tries < FOOD_TRIES
            invariant
                self.width > 2,
                self.height > 2,
            decreases FOOD_TRIES - tries,
        {
            let x = random_coordinate(1, self.width - 1);
            let y = random_coordinate(1, self.height - 1);
            if self.food_fits(x, y) {
                return Some((x, y));
            }
            tries = tries + 1;
        }
        None
    }

    /// Places new food inside the border on no segment but the last: a few
    /// random cells are tried, then the board is scanned in order. With no
    /// room on the board there stays no food.
    pub fn add_food(&mut self)
        requires
            old(self).wf(),
            !old(self).food_exists,
        ensures
            final(self).wf(),
            old(self)@.food_placed(final(self)@),
    {
        let mut cell = self.random_free_cell();
        if cell.is_none() {
            cell = self.first_free_cell();
        }
        if let Some(c) = cell {
            self.food_position = c;
            self.food_exists = true;
        }
    }

    /// Lets `delta_time` microseconds pass. A dead snake waits for the restart;
    /// a living one gets food if there is none and steps on once the moving
    /// period has passed.
    pub fn update(&mut self, delta_time: u64)
        requires
            old(self).wf(),
        ensures
            final(self).wf(),
            ({
                let w = old(self)@.waited(delta_time as nat);
                if w.game_over {
                    final(self)@ == w.ticked_dead()
                } else if w.food_exists {
                    final(self)@ == w.ticked()
                } else {
                    exists|placed: GameView| w.food_placed(placed) && final(self)@ == placed.ticked()
                }
            }),
    {
        if u64::MAX - self.waiting_time < delta_time {
            self.waiting_time = u64::MAX;
        } else {
            self.waiting_time = self.waiting_time + delta_time;
        }
        if self.game_over {
            if self.waiting_time > RESTART_TIME {
                self.restart();
            }
            return;
        }
        let ghost placed = self@;
        if !self.food_exists {
            self.add_food();
            proof {
                placed = self@;
            }
        }
        if self.waiting_time > MOVING_PERIOD {
            self.update_snake(None);
        }
        proof {
            let w = old(self)@.waited(delta_time as nat);
            if !w.food_exists {
                assert(w.food_placed(placed) && self@ == placed.ticked());
            }
        }
    }
}

} // verus!
