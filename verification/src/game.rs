use vstd::prelude::*;

use crate::geometry::{dir_after, in_bounds, Movement, Vector2};
use crate::model::{
    body_after, game_step, has_free_cell, initial_view, logic_step, target_length, wf, GameView,
    SnakeView, START_IMMUNITY,
};
use crate::randomness::{rng_from_seed, sample_below};

verus! {

/// A construction input the engine rejects: the game never starts from a
/// state its rules cannot handle.
#[derive(Clone, Copy, Debug, PartialEq, Eq, Structural)]
pub enum ConfigError {
    /// The grid side length was 0.
    ZeroSize,
    /// The turn rate was 0; 1 is the fastest legal rate.
    ZeroTurnRate,
    /// The starting head position lay outside `[0, size]` on some axis.
    StartOutOfBounds,
}

/// The snake: a head cell, its trailing segments, and its state of life.
pub struct Snake {
    body: Vec<Vector2>,
    head: Vector2,
    length: u64,
    direction: Option<Movement>,
    alive: bool,
}

/// The whole game state. All fields mutate only inside `update` and
/// `handle_input`; the generator that places fruit is owned by the game and
/// seeded at construction.
pub struct Game {
    size: u32,
    fruit: Vector2,
    snake: Snake,
    points: u32,
    immunity: u32,
    turn_rate: u32,
    turn_timer: u32,
    rng: rand::rngs::StdRng,
}

impl View for Snake {
    type V = SnakeView;

    closed spec fn view(&self) -> SnakeView {
        SnakeView {
            body: self.body@,
            head: self.head,
            length: self.length,
            direction: self.direction,
            alive: self.alive,
        }
    }
}

impl View for Game {
    type V = GameView;

    closed spec fn view(&self) -> GameView {
        GameView {
            size: self.size,
            fruit: self.fruit,
            snake: self.snake@,
            points: self.points,
            immunity: self.immunity,
            turn_rate: self.turn_rate,
            turn_timer: self.turn_timer,
        }
    }
}

/// Whether `d` is the set direction `m`.
fn is_dir(d: Option<Movement>, m: Movement) -> (r: bool)
    ensures
        r == (d == Some(m)),
{
    match d {
        Some(x) => x == m,
        None => false,
    }
}

/// Whether some trailing segment occupies `p`.
fn occupies(body: &Vec<Vector2>, p: Vector2) -> (r: bool)
    ensures
        r == body@.contains(p),
{
    let mut i: usize = 0;
    while i < body.len()
        invariant
            i <= body@.len(),
            forall|j: int| 0 <= j < i ==> body@[j] != p,
        decreases body@.len() - i,
    {
        if body[i] == p {
            return true;
        }
        i = i + 1;
    }
    false
}

/// Every cell of `[0, size) x [0, size)` that no body segment occupies, in
/// row-major order.
fn free_cells(body: &Vec<Vector2>, size: u32) -> (r: Vec<Vector2>)
    ensures
        forall|i: int|
            0 <= i < r@.len() ==> (#[trigger] r@[i]).0 < size && r@[i].1 < size
                && !body@.contains(r@[i]),
        forall|p: Vector2| p.0 < size && p.1 < size && !body@.contains(p) ==> r@.contains(p),
{
    let mut r: Vec<Vector2> = Vec::new();
    let mut x: u32 = 0;
    while x < size
        invariant
            x <= size,
            forall|i: int|
                0 <= i < r@.len() ==> (#[trigger] r@[i]).0 < size && r@[i].1 < size
                    && !body@.contains(r@[i]),
            forall|p: Vector2| p.0 < x && p.1 < size && !body@.contains(p) ==> r@.contains(p),
        decreases size - x,
    {
        let mut y: u32 = 0;
        while y < size
            invariant
                x < size,
                y <= size,
                forall|i: int|
                    0 <= i < r@.len() ==> (#[trigger] r@[i]).0 < size && r@[i].1 < size
                        && !body@.contains(r@[i]),
                forall|p: Vector2| p.0 < x && p.1 < size && !body@.contains(p) ==> r@.contains(p),
                forall|p: Vector2| p.0 == x && p.1 < y && !body@.contains(p) ==> r@.contains(p),
            decreases size - y,
        {
            if !occupies(body, Vector2(x, y)) {
                let ghost pre = r@;
                r.push(Vector2(x, y));
                proof {
                    assert forall|p: Vector2| pre.contains(p) implies r@.contains(p) by {
                        let i = choose|i: int| 0 <= i < pre.len() && pre[i] == p;
                        assert(r@[i] == p);
                    }
                    assert(r@[r@.len() - 1] == Vector2(x, y));
                }
            }
            y = y + 1;
        }
        x = x + 1;
    }
    r
}

impl Game {
    /// Builds a fresh game: a live one-segment snake at `startpos` with no
    /// direction, no points, immunity preloaded, the timer primed so that
    /// the first logic tick comes after `speed` calls of `update`, and a
    /// fruit placed at random on the grid. Rejects a zero grid, a zero turn
    /// rate and a start position off the grid.
    pub fn new(startpos: Vector2, size: u32, speed: u32, seed: u64) -> (r: Result<Game, ConfigError>)
        ensures
            r is Ok <==> (size >= 1 && speed >= 1 && in_bounds(startpos, size)),
            size == 0 ==> r == Err::<Game, ConfigError>(ConfigError::ZeroSize),
            size >= 1 && speed == 0 ==> r == Err::<Game, ConfigError>(ConfigError::ZeroTurnRate),
            size >= 1 && speed >= 1 && !in_bounds(startpos, size) ==> r == Err::<Game, ConfigError>(
                ConfigError::StartOutOfBounds,
            ),
            r matches Ok(g) ==> initial_view(g@, startpos, size, speed) && wf(g@),
    {
        if size == 0 {
            return Err(ConfigError::ZeroSize);
        }
        if speed == 0 {
            return Err(ConfigError::ZeroTurnRate);
        }
        if startpos.0 > size || startpos.1 > size {
            return Err(ConfigError::StartOutOfBounds);
        }
        let mut rng = rng_from_seed(seed);
        let fx = sample_below(&mut rng, size as u64) as u32;
        let fy = sample_below(&mut rng, size as u64) as u32;
        Ok(
            Game {
                size,
                fruit: Vector2(fx, fy),
                points: 0,
                immunity: START_IMMUNITY,
                snake: Snake {
                    alive: true,
                    length: 1,
                    head: startpos,
                    body: Vec::new(),
                    direction: None,
                },
                turn_rate: speed,
                turn_timer: speed - 1,
                rng,
            },
        )
    }

    /// Records the latest desired direction from one sample of the four
    /// directional keys. May be called every frame; it only stages the
    /// direction the next logic tick will use, and a turn into the opposite
    /// of the current direction is ignored.
    pub fn handle_input(&mut self, up: bool, down: bool, left: bool, right: bool)
        ensures
            final(self)@ == (GameView {
                snake: SnakeView {
                    direction: dir_after(old(self)@.snake.direction, up, down, left, right),
                    ..old(self)@.snake
                },
                ..old(self)@
            }),
    {
        let d = self.snake.direction;
        if up && !is_dir(d, Movement::Down) {
            self.snake.direction = Some(Movement::Up);
        } else if down && !is_dir(d, Movement::Up) {
            self.snake.direction = Some(Movement::Down);
        } else if left && !is_dir(d, Movement::Right) {
            self.snake.direction = Some(Movement::Left);
        } else if right && !is_dir(d, Movement::Left) {
            self.snake.direction = Some(Movement::Right);
        }
    }

    /// Replaces the fruit by a cell drawn uniformly at random from the
    /// cells of `[0, size) x [0, size)` that no body segment occupies.
    /// When the body occupies every such cell the fruit stays where it is;
    /// nothing else of the game state ever changes.
    fn respawn_fruit(&mut self)
        requires
            old(self).size >= 1,
        ensures
            final(self)@ == (GameView { fruit: final(self)@.fruit, ..old(self)@ }),
            has_free_cell(old(self)@.snake.body, old(self)@.size) ==> ({
                &&& final(self)@.fruit.0 < old(self)@.size
                &&& final(self)@.fruit.1 < old(self)@.size
                &&& !old(self)@.snake.body.contains(final(self)@.fruit)
            }),
            !has_free_cell(old(self)@.snake.body, old(self)@.size) ==> final(self)@.fruit
                == old(self)@.fruit,
    {
        let cells = free_cells(&self.snake.body, self.size);
        if cells.len() > 0 {
            let k = sample_below(&mut self.rng, cells.len() as u64);
            let c = cells[k as usize];
            self.fruit = c;
            proof {
                assert(has_free_cell(old(self)@.snake.body, old(self)@.size)) by {
                    assert(!old(self)@.snake.body.contains(cells@[k as int]));
                }
            }
        } else {
            proof {
                if has_free_cell(old(self)@.snake.body, old(self)@.size) {
                    let p = choose|p: Vector2|
                        p.0 < old(self)@.size && p.1 < old(self)@.size && !old(
                            self,
                        )@.snake.body.contains(p);
                    assert(cells@.contains(p));
                }
            }
        }
    }

    /// Advances the game one frame. While the turn timer is nonzero only
    /// the timer changes (it counts down by one); when it has expired and
    /// the snake is alive, one logic tick runs: the target length is
    /// recomputed from the score, the head moves one cell along the set
    /// direction (dying instead of leaving the grid), self-collision kills
    /// without immunity, the vacated cell joins the body which is trimmed
    /// to its target, a fruit on the head is eaten and replaced, immunity
    /// decays, and the timer is reprimed. A dead game with an expired timer
    /// is frozen.
    pub fn update(&mut self)
        requires
            wf(old(self)@),
        ensures
            wf(final(self)@),
            game_step(old(self)@, final(self)@),
    {
        if self.turn_timer > 0 {
            self.turn_timer = self.turn_timer - 1;
            assert(self@ =~= (GameView {
                turn_timer: (old(self)@.turn_timer - 1) as u32,
                ..old(self)@
            }));
        } else if self.snake.alive {
            let target: u64 = 2 * (self.points as u64 + 1);
            self.snake.length = target;
            let prev = self.snake.head;
            match self.snake.direction {
                None => {},
                Some(Movement::Left) => {
                    if self.snake.head.0 == 0 {
                        self.snake.alive = false;
                    } else {
                        self.snake.head.0 = self.snake.head.0 - 1;
                    }
                },
                Some(Movement::Right) => {
                    if self.snake.head.0 >= self.size {
                        self.snake.alive = false;
                    } else {
                        self.snake.head.0 = self.snake.head.0 + 1;
                    }
                },
                Some(Movement::Up) => {
                    if self.snake.head.1 == 0 {
                        self.snake.alive = false;
                    } else {
                        self.snake.head.1 = self.snake.head.1 - 1;
                    }
                },
                Some(Movement::Down) => {
                    if self.snake.head.1 >= self.size {
                        self.snake.alive = false;
                    } else {
                        self.snake.head.1 = self.snake.head.1 + 1;
                    }
                },
            }
            if self.immunity == 0 && occupies(&self.snake.body, self.snake.head) {
                self.snake.alive = false;
            }
            self.snake.body.push(prev);
            if self.snake.body.len() as u64 > self.snake.length {
                self.snake.body.remove(0);
            }
            assert(self@.snake.body == body_after(
                old(self)@.snake.body,
                old(self)@.snake.head,
                target_length(old(self)@.points),
            ));
            if self.snake.head == self.fruit {
                self.respawn_fruit();
                if self.points != u32::MAX {
                    self.points = self.points + 1;
                }
            }
            if self.immunity != 0 {
                self.immunity = self.immunity - 1;
            }
            self.turn_timer = self.turn_rate - 1;
            assert(logic_step(old(self)@, self@));
        } else {
            assert(self@ =~= old(self)@);
        }
        proof {
            crate::model::lemma_step_preserves_wf(old(self)@, self@);
        }
    }

    /// The grid side length.
    pub fn size(&self) -> (r: u32)
        ensures
            r == self@.size,
    {
        self.size
    }

    /// The cell of the fruit.
    pub fn fruit(&self) -> (r: Vector2)
        ensures
            r == self@.fruit,
    {
        self.fruit
    }

    /// The cell of the snake's head.
    pub fn head(&self) -> (r: Vector2)
        ensures
            r == self@.snake.head,
    {
        self.snake.head
    }

    /// The trailing segments, oldest first.
    pub fn body(&self) -> (r: &Vec<Vector2>)
        ensures
            r@ == self@.snake.body,
    {
        &self.snake.body
    }

    /// The staged direction, `None` before the first input.
    pub fn direction(&self) -> (r: Option<Movement>)
        ensures
            r == self@.snake.direction,
    {
        self.snake.direction
    }

    /// Whether the snake is alive; once false the game is frozen.
    pub fn alive(&self) -> (r: bool)
        ensures
            r == self@.snake.alive,
    {
        self.snake.alive
    }

    /// The score: fruit eaten so far.
    pub fn points(&self) -> (r: u32)
        ensures
            r == self@.points,
    {
        self.points
    }

    /// Ticks of self-collision grace left.
    pub fn immunity(&self) -> (r: u32)
        ensures
            r == self@.immunity,
    {
        self.immunity
    }

    /// Frames per logic tick.
    pub fn turn_rate(&self) -> (r: u32)
        ensures
            r == self@.turn_rate,
    {
        self.turn_rate
    }

    /// Frames left before the next logic tick.
    pub fn turn_timer(&self) -> (r: u32)
        ensures
            r == self@.turn_timer,
    {
        self.turn_timer
    }
}

} // verus!
