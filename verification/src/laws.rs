use vstd::prelude::*;

use crate::geometry::{dir_after, fatal_move, head_after, in_bounds, Movement};
use crate::model::{
    body_after, game_step, has_free_cell, lemma_step_preserves_wf, target_length, wf, GameView,
};

verus! {

/// Along any run of `update` steps from a well-formed state, every state
/// is well-formed.
pub proof fn lemma_wf_at(states: Seq<GameView>, i: int)
    requires
        states.len() >= 1,
        wf(states[0]),
        forall|j: int| 0 <= j < states.len() - 1 ==> game_step(#[trigger] states[j], states[j + 1]),
        0 <= i < states.len(),
    ensures
        wf(states[i]),
    decreases i,
{
    if i > 0 {
        lemma_wf_at(states, i - 1);
        lemma_step_preserves_wf(states[i - 1], states[i]);
    }
}

/// Bounds: along any run of `update` steps from a well-formed start, the
/// head's coordinates stay in `[0, size]`.
pub proof fn head_stays_in_bounds(states: Seq<GameView>)
    requires
        states.len() >= 1,
        wf(states[0]),
        forall|j: int| 0 <= j < states.len() - 1 ==> game_step(#[trigger] states[j], states[j + 1]),
    ensures
        forall|i: int|
            0 <= i < states.len() ==> in_bounds((#[trigger] states[i]).snake.head, states[i].size),
{
    assert forall|i: int|
        0 <= i < states.len() implies in_bounds(states[i].snake.head, states[i].size) by {
        lemma_wf_at(states, i);
    }
}

/// Bounds, the fatal case: a tick whose set direction would leave
/// `[0, size]` kills the snake and leaves the head where it was — the
/// coordinate neither wraps nor clamps.
pub proof fn fatal_move_kills(pre: GameView, post: GameView)
    requires
        pre.turn_timer == 0,
        pre.snake.alive,
        game_step(pre, post),
        fatal_move(pre.snake.head, pre.snake.direction, pre.size),
    ensures
        !post.snake.alive,
        post.snake.head == pre.snake.head,
{
}

/// No-reversal: one input sample never turns the direction into the
/// opposite of the one it held when the sample was taken, whatever keys
/// are pressed together.
pub proof fn no_reversal(d: Option<Movement>, up: bool, down: bool, left: bool, right: bool)
    ensures
        d == Some(Movement::Right) ==> dir_after(d, up, down, left, right) != Some(Movement::Left),
        d == Some(Movement::Left) ==> dir_after(d, up, down, left, right) != Some(Movement::Right),
        d == Some(Movement::Up) ==> dir_after(d, up, down, left, right) != Some(Movement::Down),
        d == Some(Movement::Down) ==> dir_after(d, up, down, left, right) != Some(Movement::Up),
{
}

/// Length bound: along any run of `update` steps from a well-formed
/// start, the body never holds more than `2 * (points + 1)` segments.
pub proof fn body_length_bounded(states: Seq<GameView>)
    requires
        states.len() >= 1,
        wf(states[0]),
        forall|j: int| 0 <= j < states.len() - 1 ==> game_step(#[trigger] states[j], states[j + 1]),
    ensures
        forall|i: int|
            0 <= i < states.len() ==> (#[trigger] states[i]).snake.body.len() <= 2 * (
            states[i].points + 1),
{
    assert forall|i: int|
        0 <= i < states.len() implies states[i].snake.body.len() <= 2 * (states[i].points + 1) by {
        lemma_wf_at(states, i);
    }
}

/// Fruit non-overlap: a tick that eats the fruit leaves the new fruit on
/// no body segment, as long as the board still had a cell to respawn on.
pub proof fn fruit_misses_body(pre: GameView, post: GameView)
    requires
        pre.turn_timer == 0,
        pre.snake.alive,
        game_step(pre, post),
        head_after(pre.snake.head, pre.snake.direction, pre.size) == pre.fruit,
        has_free_cell(
            body_after(pre.snake.body, pre.snake.head, target_length(pre.points)),
            pre.size,
        ),
    ensures
        !post.snake.body.contains(post.fruit),
{
}

/// Growth timing: a tick that eats the fruit raises the score by exactly
/// one, and the body pushed on that tick is a function of the state before
/// it — the respawned fruit never rewrites it.
pub proof fn growth_timing(pre: GameView, post: GameView)
    requires
        pre.turn_timer == 0,
        pre.snake.alive,
        pre.points < u32::MAX,
        game_step(pre, post),
        head_after(pre.snake.head, pre.snake.direction, pre.size) == pre.fruit,
    ensures
        post.points == pre.points + 1,
        post.snake.body == body_after(pre.snake.body, pre.snake.head, target_length(pre.points)),
{
}

/// Immunity decay, monotone half: no call of `update` ever raises
/// immunity.
pub proof fn immunity_monotone(pre: GameView, post: GameView)
    requires
        game_step(pre, post),
    ensures
        post.immunity <= pre.immunity,
{
}

/// Immunity decay, exact half: along consecutive logic ticks of a live
/// snake, immunity falls by exactly one per tick until it reaches zero, so
/// it is zero after exactly as many ticks as the game started with.
pub proof fn immunity_counts_down(states: Seq<GameView>, i: int)
    requires
        states.len() >= 1,
        0 <= i < states.len(),
        forall|j: int|
            0 <= j < states.len() - 1 ==> (#[trigger] states[j]).turn_timer == 0
                && states[j].snake.alive && game_step(states[j], states[j + 1]),
    ensures
        states[i].immunity == if states[0].immunity >= i {
            states[0].immunity - i
        } else {
            0
        },
    decreases i,
{
    if i > 0 {
        immunity_counts_down(states, i - 1);
    }
}

/// Immunity decay, the sting: once immunity is zero, a tick that moves the
/// head onto a body segment is fatal.
pub proof fn collision_fatal_without_immunity(pre: GameView, post: GameView)
    requires
        pre.turn_timer == 0,
        pre.snake.alive,
        pre.immunity == 0,
        game_step(pre, post),
        pre.snake.body.contains(head_after(pre.snake.head, pre.snake.direction, pre.size)),
    ensures
        !post.snake.alive,
{
}

/// Tick gating: while the timer has not expired, each call of `update`
/// changes nothing but the timer, which counts down by one per call; so
/// the `turn_rate - 1` calls after a logic tick leave the rest of the
/// state exactly as it was.
pub proof fn tick_gating(states: Seq<GameView>, k: int)
    requires
        states.len() >= 1,
        0 <= k < states.len(),
        k <= states[0].turn_timer,
        forall|j: int| 0 <= j < states.len() - 1 ==> game_step(#[trigger] states[j], states[j + 1]),
    ensures
        states[k] == (GameView { turn_timer: (states[0].turn_timer - k) as u32, ..states[0] }),
    decreases k,
{
    if k > 0 {
        tick_gating(states, k - 1);
        assert(states[k - 1].turn_timer == states[0].turn_timer - (k - 1));
        assert(states[k] =~= (GameView {
            turn_timer: (states[0].turn_timer - k) as u32,
            ..states[0]
        }));
    } else {
        assert(states[0] =~= (GameView {
            turn_timer: (states[0].turn_timer - 0) as u32,
            ..states[0]
        }));
    }
}

} // verus!
