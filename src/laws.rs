//! Properties of the game that hold for every input, stated over the
//! abstract game that the engine's operations are specified against.

use vstd::prelude::*;

use crate::direction::{opposite, step_on_torus, Direction, Position};
use crate::engine::{center, Action, GameState, GameView, INITIAL_LENGTH};

verus! {

/// A fresh session on a grid at least twice the starting length each way has
/// its head at the center and `INITIAL_LENGTH - 1` body segments, each on
/// the head's row strictly left of it, no two on the same cell.
pub proof fn lemma_start_layout(v: GameView, roll: Position)
    requires
        v.valid(),
        v.grid.contains(roll),
        v.grid.width >= 2 * INITIAL_LENGTH,
        v.grid.height >= 2 * INITIAL_LENGTH,
        v.grid.width <= i32::MAX,
        v.grid.height <= i32::MAX,
    ensures
        v.reset(roll).head == center(v.grid.width, v.grid.height),
        v.reset(roll).head == (Position {
            x: (v.grid.width / 2) as i32,
            y: (v.grid.height / 2) as i32,
        }),
        v.reset(roll).body.len() == INITIAL_LENGTH - 1,
        forall|i: int|
            0 <= i < v.reset(roll).body.len() ==> {
                &&& (#[trigger] v.reset(roll).body[i]).y == v.reset(roll).head.y
                &&& v.reset(roll).body[i].x < v.reset(roll).head.x
            },
        forall|i: int, j: int|
            0 <= i < j < v.reset(roll).body.len() ==> #[trigger] v.reset(roll).body[i]
                != #[trigger] v.reset(roll).body[j],
        !v.reset(roll).body.contains(v.reset(roll).head),
{
    let r = v.reset(roll);
    assert forall|i: int| 0 <= i < r.body.len() implies #[trigger] r.body[i] != r.head by {}
}

/// Asking for the reverse of the current heading leaves the game as it was.
pub proof fn lemma_reverse_refused(v: GameView, d: Direction)
    requires
        v.direction == d,
    ensures
        v.turned(opposite(d)) == v,
        v.turned(opposite(d)).direction == d,
{
}

/// A step that neither collides nor eats moves the head one cell along the
/// heading (wrapping around), shifts the body up behind it, and keeps the
/// length.
pub proof fn lemma_plain_step(v: GameView, roll: Position)
    requires
        v.valid(),
        !v.body.contains(v.next_head()),
        v.next_head() != v.food,
    ensures
        v.moved(roll).head == step_on_torus(v.head, v.direction, v.grid.width, v.grid.height),
        v.moved(roll).body == seq![v.head] + v.body.subrange(0, v.body.len() - 1),
        v.moved(roll).body.len() == v.body.len(),
        v.moved(roll).score == v.score,
        v.moved(roll).food == v.food,
        v.moved(roll).state == v.state,
{
    assert(v.body.drop_last() =~= v.body.subrange(0, v.body.len() - 1));
}

/// A step onto the food raises the score by one, grows the snake by one and
/// puts the food at the newly drawn cell.
pub proof fn lemma_eating_step(v: GameView, roll: Position)
    requires
        v.valid(),
        !v.body.contains(v.next_head()),
        v.next_head() == v.food,
    ensures
        v.moved(roll).score == v.score + 1,
        v.moved(roll).body.len() == v.body.len() + 1,
        v.moved(roll).head == v.food,
        v.moved(roll).body.last() == v.body.last(),
        v.moved(roll).food == roll,
        v.moved(roll).state == v.state,
{
}

/// A step whose head would land on a body segment ends the game and leaves
/// the grid, the snake, the food and the score as they were.
pub proof fn lemma_collision_step(v: GameView, roll: Position)
    requires
        v.valid(),
        v.body.contains(v.next_head()),
    ensures
        v.moved(roll).state == GameState::GameOver,
        v.moved(roll).grid == v.grid,
        v.moved(roll).head == v.head,
        v.moved(roll).body == v.body,
        v.moved(roll).food == v.food,
        v.moved(roll).score == v.score,
        v.moved(roll).direction == v.direction,
{
}

/// Moving right off the right edge re-enters at `x == 0` on the same row;
/// moving up off the top edge re-enters at `y == height - 1` in the same
/// column.
pub proof fn lemma_wraparound(p: Position, width: int, height: int)
    requires
        width > 0,
        height > 0,
        0 <= p.x < width,
        0 <= p.y < height,
        width <= i32::MAX,
        height <= i32::MAX,
    ensures
        p.x == width - 1 ==> step_on_torus(p, Direction::Right, width, height) == (Position {
            x: 0,
            y: p.y,
        }),
        p.y == 0 ==> step_on_torus(p, Direction::Up, width, height) == (Position {
            x: p.x,
            y: (height - 1) as i32,
        }),
{
}

/// Ending a session in play keeps the larger of the best and the current
/// score as the best, and the current score as it was.
pub proof fn lemma_best_score_on_end(v: GameView, roll: Position)
    requires
        v.valid(),
        v.state == GameState::Playing,
    ensures
        v.acted(Action::End, roll).state == GameState::Ended,
        v.acted(Action::End, roll).best == (if v.score > v.best {
            v.score
        } else {
            v.best
        }),
        v.acted(Action::End, roll).best >= v.best,
        v.acted(Action::End, roll).score == v.score,
{
}

/// While paused, a directional action changes nothing: neither the
/// heading, nor the snake, nor anything else.
pub proof fn lemma_paused_ignores_moves(v: GameView, action: Action, roll: Position)
    requires
        v.state == GameState::Paused,
        action == Action::MoveUp || action == Action::MoveDown || action == Action::MoveLeft
            || action == Action::MoveRight,
    ensures
        v.acted(action, roll) == v,
{
}

} // verus!
