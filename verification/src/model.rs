use vstd::prelude::*;

use crate::geometry::{fatal_move, head_after, in_bounds, Movement, Vector2};

verus! {

/// How many logic ticks of immunity a fresh game starts with.
pub const START_IMMUNITY: u32 = 5;

/// The mathematical value of a `Snake`.
#[verifier::ext_equal]
pub ghost struct SnakeView {
    /// Trailing segments, oldest first: index 0 is dropped first when the
    /// snake shrinks.
    pub body: Seq<Vector2>,
    /// The cell of the lead segment.
    pub head: Vector2,
    /// The target body length recomputed each logic tick from the score.
    pub length: u64,
    /// The current direction, sticky until overridden; `None` before the
    /// first input.
    pub direction: Option<Movement>,
    /// Once false the game is frozen; the snake still renders in its last
    /// state.
    pub alive: bool,
}

/// The mathematical value of a `Game`.
#[verifier::ext_equal]
pub ghost struct GameView {
    /// The grid is `size x size` cells; head coordinates may legally reach
    /// `size` itself.
    pub size: u32,
    /// The fruit cell, drawn from `[0, size) x [0, size)`.
    pub fruit: Vector2,
    pub snake: SnakeView,
    /// The score: one point per fruit eaten.
    pub points: u32,
    /// Ticks of grace left during which self-collision is not fatal.
    pub immunity: u32,
    /// Frames per logic tick; 1 advances the game on every call.
    pub turn_rate: u32,
    /// Counts down from `turn_rate - 1` to 0; the game advances when it
    /// reaches 0 and it is then reprimed.
    pub turn_timer: u32,
}

/// The body length the snake aims for at a given score.
pub open spec fn target_length(points: u32) -> int {
    2 * (points + 1)
}

/// The trailing body after one logic tick: the cell the head vacated is
/// appended, and when that exceeds the target length the oldest segment
/// (index 0) is dropped.
pub open spec fn body_after(body: Seq<Vector2>, prev_head: Vector2, target: int) -> Seq<Vector2> {
    let pushed = body.push(prev_head);
    if pushed.len() > target {
        pushed.remove(0)
    } else {
        pushed
    }
}

/// Some cell of `[0, size) x [0, size)` is free of body segments: a fruit
/// can be placed there.
pub open spec fn has_free_cell(body: Seq<Vector2>, size: u32) -> bool {
    exists|p: Vector2| p.0 < size && p.1 < size && !body.contains(p)
}

/// Well-formedness of a game state: what `Game::new` establishes and every
/// call preserves.
pub open spec fn wf(g: GameView) -> bool {
    &&& g.size >= 1
    &&& g.turn_rate >= 1
    &&& g.turn_timer < g.turn_rate
    &&& in_bounds(g.snake.head, g.size)
    &&& g.fruit.0 < g.size
    &&& g.fruit.1 < g.size
    &&& forall|i: int| 0 <= i < g.snake.body.len() ==> in_bounds(#[trigger] g.snake.body[i], g.size)
    &&& g.snake.body.len() <= target_length(g.points)
}

/// One advancing tick of a live snake: the relation between the state at a
/// call of `update` with an expired timer and the state after it. The fruit
/// cell after a respawn is random, so the relation pins every field except
/// that cell, of which it states its range and that it misses the body;
/// when the body leaves no free cell to respawn on, the fruit stays put.
pub open spec fn logic_step(pre: GameView, post: GameView) -> bool {
    let new_head = head_after(pre.snake.head, pre.snake.direction, pre.size);
    let new_body = body_after(pre.snake.body, pre.snake.head, target_length(pre.points));
    let eaten = new_head == pre.fruit;
    &&& post.size == pre.size
    &&& post.turn_rate == pre.turn_rate
    &&& post.turn_timer == pre.turn_rate - 1
    &&& post.snake.direction == pre.snake.direction
    &&& post.snake.head == new_head
    &&& post.snake.body == new_body
    &&& post.snake.length == target_length(pre.points)
    &&& post.snake.alive == (!fatal_move(pre.snake.head, pre.snake.direction, pre.size)
        && !(pre.immunity == 0 && pre.snake.body.contains(new_head)))
    &&& post.immunity == (if pre.immunity > 0 { pre.immunity - 1 } else { 0 })
    &&& if eaten {
        &&& if has_free_cell(new_body, pre.size) {
            &&& post.fruit.0 < pre.size
            &&& post.fruit.1 < pre.size
            &&& !new_body.contains(post.fruit)
        } else {
            post.fruit == pre.fruit
        }
        &&& post.points == (if pre.points < u32::MAX { pre.points + 1 } else { pre.points as int })
    } else {
        &&& post.fruit == pre.fruit
        &&& post.points == pre.points
    }
}

/// What one call of `update` does: decrement the timer while it is nonzero,
/// advance a live snake when it has expired, and leave a dead game frozen.
pub open spec fn game_step(pre: GameView, post: GameView) -> bool {
    if pre.turn_timer > 0 {
        post == GameView { turn_timer: (pre.turn_timer - 1) as u32, ..pre }
    } else if pre.snake.alive {
        logic_step(pre, post)
    } else {
        post == pre
    }
}

/// The state `Game::new` hands out for a start position, grid size and turn
/// rate: a live one-segment snake without a direction, no points, immunity
/// preloaded, the timer primed for a first tick after `speed` calls, and a
/// fruit somewhere on the grid.
pub open spec fn initial_view(g: GameView, startpos: Vector2, size: u32, speed: u32) -> bool {
    &&& g.size == size
    &&& g.snake.head == startpos
    &&& g.snake.body == Seq::<Vector2>::empty()
    &&& g.snake.direction is None
    &&& g.snake.alive == true
    &&& g.snake.length == 1
    &&& g.points == 0
    &&& g.immunity == START_IMMUNITY
    &&& g.turn_rate == speed
    &&& g.turn_timer == speed - 1
    &&& g.fruit.0 < size
    &&& g.fruit.1 < size
}

/// A step preserves well-formedness: the head stays inside `[0, size]`, the
/// fruit on the grid, and the body under its target length.
pub proof fn lemma_step_preserves_wf(pre: GameView, post: GameView)
    requires
        wf(pre),
        game_step(pre, post),
    ensures
        wf(post),
{
    if pre.turn_timer == 0 && pre.snake.alive {
        let new_body = body_after(pre.snake.body, pre.snake.head, target_length(pre.points));
        let pushed = pre.snake.body.push(pre.snake.head);
        assert(forall|i: int| 0 <= i < pushed.len() ==> in_bounds(#[trigger] pushed[i], pre.size));
        assert(forall|i: int|
            0 <= i < new_body.len() ==> in_bounds(#[trigger] new_body[i], pre.size));
    }
}

} // verus!
