use vstd::prelude::*;

verus! {

/// A cell of the square grid, addressed by column and row.
#[derive(Clone, Copy, Debug, PartialEq, Eq, Structural)]
pub struct Vector2(pub u32, pub u32);

/// A direction of travel. The snake has no direction until the first
/// key-press, so it always appears as an `Option<Movement>`.
#[derive(Clone, Copy, Debug, PartialEq, Eq, Structural)]
pub enum Movement {
    Left,
    Right,
    Up,
    Down,
}

/// The direction opposite to `m`; turning there would reverse the snake
/// into its own neck.
pub open spec fn opposite(m: Movement) -> Movement {
    match m {
        Movement::Left => Movement::Right,
        Movement::Right => Movement::Left,
        Movement::Up => Movement::Down,
        Movement::Down => Movement::Up,
    }
}

/// Both coordinates lie in `[0, size]`: the boundary cell `size` itself is
/// a legal place for the head.
pub open spec fn in_bounds(p: Vector2, size: u32) -> bool {
    p.0 <= size && p.1 <= size
}

/// One step from `p` in direction `m` stays inside `[0, size]` on the axis
/// it moves along.
pub open spec fn move_fits(p: Vector2, m: Movement, size: u32) -> bool {
    match m {
        Movement::Left => p.0 >= 1,
        Movement::Right => p.0 + 1 <= size,
        Movement::Up => p.1 >= 1,
        Movement::Down => p.1 + 1 <= size,
    }
}

/// The cell one step from `p` in direction `m`; meaningful when the move
/// fits the grid.
pub open spec fn step_from(p: Vector2, m: Movement) -> Vector2 {
    match m {
        Movement::Left => Vector2((p.0 - 1) as u32, p.1),
        Movement::Right => Vector2((p.0 + 1) as u32, p.1),
        Movement::Up => Vector2(p.0, (p.1 - 1) as u32),
        Movement::Down => Vector2(p.0, (p.1 + 1) as u32),
    }
}

/// Where the head stands after one logic tick: moved one cell when a
/// direction is set and the move fits, unchanged otherwise. A fatal move
/// never wraps or clamps the coordinate.
pub open spec fn head_after(p: Vector2, dir: Option<Movement>, size: u32) -> Vector2 {
    match dir {
        Option::Some(m) => if move_fits(p, m, size) {
            step_from(p, m)
        } else {
            p
        },
        Option::None => p,
    }
}

/// A set direction whose next step would leave `[0, size]`: the move that
/// kills the snake.
pub open spec fn fatal_move(p: Vector2, dir: Option<Movement>, size: u32) -> bool {
    match dir {
        Option::Some(m) => !move_fits(p, m, size),
        Option::None => false,
    }
}

/// Turning to `m` is legal unless the snake currently travels opposite
/// to `m`.
pub open spec fn legal_turn(current: Option<Movement>, m: Movement) -> bool {
    current != Some(opposite(m))
}

/// The staged direction after one input sample. The four keys are checked
/// in the fixed priority Up, Down, Left, Right against the direction held
/// before the sample; the first pressed key whose turn is legal wins, and
/// with no legal pressed key the direction is unchanged.
pub open spec fn dir_after(
    current: Option<Movement>,
    up: bool,
    down: bool,
    left: bool,
    right: bool,
) -> Option<Movement> {
    if up && legal_turn(current, Movement::Up) {
        Some(Movement::Up)
    } else if down && legal_turn(current, Movement::Down) {
        Some(Movement::Down)
    } else if left && legal_turn(current, Movement::Left) {
        Some(Movement::Left)
    } else if right && legal_turn(current, Movement::Right) {
        Some(Movement::Right)
    } else {
        current
    }
}

} // verus!
