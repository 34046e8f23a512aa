//! The game's rules, stated over the models and proved.
use vstd::prelude::*;

use crate::game::{start_snake, GameView, RESTART_TIME};
use crate::snake::{block_at, opposite_of, step, Direction, SnakeView};

verus! {

/// A key press in any direction but the reverse of the heading, while the
/// snake is alive and survives the step, turns the snake that way and moves
/// its head exactly one cell in that direction.
pub proof fn lemma_turn_moves_head(g: GameView, d: Direction)
    requires
        g.wf(),
        !g.game_over,
        d != opposite_of(g.snake.direction),
        g.survives(Some(d)),
    ensures
        g.after_key(Some(d)).snake.direction == d,
        g.after_key(Some(d)).snake.head().cell() == step(
            g.snake.head().x as int,
            g.snake.head().y as int,
            d,
        ),
        !g.after_key(Some(d)).game_over,
{
    let s = g.snake.moved(Some(d));
    assert(s.body[0].cell() == g.snake.next_cell(Some(d)));
    if g.food_exists && s.head().cell() == g.food {
        assert(s.restored().body[0] == s.body[0]);
    }
}

/// A key press in the direction opposite the heading changes nothing.
pub proof fn lemma_reverse_ignored(g: GameView)
    ensures
        g.after_key(Some(opposite_of(g.snake.direction))) == g,
{
}

/// A snake never counts its last segment as overlapping: the tail's cell is
/// reported free unless another segment stands on it too.
pub proof fn lemma_tail_not_overlapping(s: SnakeView)
    requires
        s.body.len() > 0,
        forall|i: int| 0 <= i < s.body.len() - 1 ==> (#[trigger] s.body[i]).cell() != s.body.last().cell(),
    ensures
        !s.occupies(s.body.last().cell()),
{
}

/// Newly placed food stands inside the border on no segment but the last.
pub proof fn lemma_placed_food_off_body(g: GameView, placed: GameView)
    requires
        g.food_placed(placed),
    ensures
        placed.food_exists ==> placed.inside(placed.food) && !placed.snake.occupies(placed.food),
{
}

/// In every well-formed game the food stands on no segment but the last.
pub proof fn lemma_food_off_body(g: GameView)
    requires
        g.wf(),
    ensures
        g.food_exists ==> !g.snake.occupies(g.food),
{
}

/// A step whose head lands on the food eats it: the food is gone and the body
/// grows by exactly one segment, the one the step had just removed.
pub proof fn lemma_eating_grows(g: GameView, dir: Option<Direction>)
    requires
        g.wf(),
        g.survives(dir),
        g.food_exists,
        g.snake.next_cell(dir) == g.food,
    ensures
        !g.after_move(dir).food_exists,
        g.after_move(dir).snake.body.len() == g.snake.body.len() + 1,
        g.after_move(dir).snake.body.last() == g.snake.body.last(),
{
    let s = g.snake.moved(dir);
    assert(s.body[0].cell() == g.snake.next_cell(dir));
}

/// A step into the border ring ends the game and leaves the snake where it was.
pub proof fn lemma_border_kills(g: GameView, dir: Option<Direction>)
    requires
        !g.inside(g.snake.next_cell(dir)),
    ensures
        g.after_move(dir).game_over,
        g.after_move(dir).snake == g.snake,
{
}

/// A step onto a segment other than the last ends the game.
pub proof fn lemma_body_kills(g: GameView, dir: Option<Direction>)
    requires
        g.snake.occupies(g.snake.next_cell(dir)),
    ensures
        g.after_move(dir).game_over,
        g.after_move(dir).snake == g.snake,
{
}

/// Once the game is over and the waiting time exceeds the restart time, the
/// game restarts: a fresh three-segment snake at the start cell, food present
/// and the game running.
pub proof fn lemma_restart_after_wait(g: GameView, delta: nat)
    requires
        g.game_over,
        g.waited(delta).waiting > RESTART_TIME,
    ensures
        g.waited(delta).ticked_dead().snake == start_snake(),
        g.waited(delta).ticked_dead().snake.body.len() == 3,
        g.waited(delta).ticked_dead().food_exists,
        !g.waited(delta).ticked_dead().game_over,
        g.waited(delta).ticked_dead() == GameView::start(g.width, g.height),
{
}

/// A forward step with a new heading `d` turns the snake to `d` and moves its
/// head exactly one cell that way; the body keeps its length.
pub proof fn lemma_step_turns_and_moves(s: SnakeView, d: Direction)
    requires
        s.can_step(Some(d)),
    ensures
        s.moved(Some(d)).direction == d,
        s.moved(Some(d)).head().cell() == step(s.head().x as int, s.head().y as int, d),
        s.moved(Some(d)).body.len() == s.body.len(),
{
}

/// A forward step followed by restoring the removed segment leaves the new
/// head in front of the whole old body: one segment more, and the last one
/// is the cell the step had just vacated.
pub proof fn lemma_step_then_restore(s: SnakeView, dir: Option<Direction>)
    requires
        s.can_step(dir),
    ensures
        s.moved(dir).restored().body == seq![block_at(s.next_cell(dir))] + s.body,
        s.moved(dir).restored().body.len() == s.body.len() + 1,
        s.moved(dir).restored().body.last() == s.body.last(),
{
    assert(s.moved(dir).restored().body =~= seq![block_at(s.next_cell(dir))] + s.body);
}

} // verus!
