use vstd::prelude::*;

use crate::game::Game;
use crate::geometry::Vector2;
use crate::model::{wf, GameView};

verus! {

/// The colour tag of one rectangle of draw data. The renderer maps each
/// tag to a real colour; the engine only says what the rectangle shows.
#[derive(Clone, Copy, Debug, PartialEq, Eq, Structural)]
pub enum CellColor {
    /// The neutral backdrop covering the whole grid.
    Background,
    /// A cell of the snake, head or trailing segment.
    Snake,
    /// The fruit cell.
    Fruit,
}

/// One axis-aligned rectangle of render data, in pixels.
#[derive(Clone, Copy, Debug, PartialEq, Eq, Structural)]
pub struct DrawRect {
    pub x: u32,
    pub y: u32,
    pub width: u32,
    pub height: u32,
    pub color: CellColor,
}

/// The square of one grid cell scaled by `cell` pixels, anchored at the
/// cell's coordinates times `cell`.
pub open spec fn cell_rect(p: Vector2, cell: u32, color: CellColor) -> DrawRect {
    DrawRect {
        x: (p.0 * cell) as u32,
        y: (p.1 * cell) as u32,
        width: cell,
        height: cell,
        color,
    }
}

/// The full draw plan of a state: the background square first; then, only
/// while the snake is alive, its head and each trailing segment oldest
/// first; and the fruit last.
pub open spec fn draw_plan(g: GameView, cell: u32) -> Seq<DrawRect> {
    let bg = DrawRect {
        x: 0,
        y: 0,
        width: (g.size * cell) as u32,
        height: (g.size * cell) as u32,
        color: CellColor::Background,
    };
    let snake_rects: Seq<DrawRect> = if g.snake.alive {
        seq![cell_rect(g.snake.head, cell, CellColor::Snake)] + g.snake.body.map_values(
            |p: Vector2| cell_rect(p, cell, CellColor::Snake),
        )
    } else {
        Seq::empty()
    };
    seq![bg] + snake_rects + seq![cell_rect(g.fruit, cell, CellColor::Fruit)]
}

/// The pixel rectangle of one grid cell.
fn rect_for(p: Vector2, cell: u32, color: CellColor) -> (r: DrawRect)
    requires
        p.0 * cell <= u32::MAX,
        p.1 * cell <= u32::MAX,
    ensures
        r == cell_rect(p, cell, color),
{
    DrawRect { x: p.0 * cell, y: p.1 * cell, width: cell, height: cell, color }
}

impl Game {
    /// Read-only render data for the current state, one rectangle per
    /// drawn cell with `cell` pixels a side, in the order of `draw_plan`.
    /// The snake is drawn only while it is alive; the fruit always.
    pub fn draw(&self, cell: u32) -> (r: Vec<DrawRect>)
        requires
            wf(self@),
            self@.size * cell <= u32::MAX,
        ensures
            r@ == draw_plan(self@, cell),
    {
        let size = self.size();
        let side = size * cell;
        let mut r: Vec<DrawRect> = Vec::new();
        r.push(
            DrawRect { x: 0, y: 0, width: side, height: side, color: CellColor::Background },
        );
        if self.alive() {
            let h = self.head();
            proof {
                assert(h.0 * cell <= size * cell && h.1 * cell <= size * cell)
                    by (nonlinear_arith)
                    requires
                        h.0 <= size,
                        h.1 <= size,
                ;
            }
            r.push(rect_for(h, cell, CellColor::Snake));
            let body = self.body();
            let mut i: usize = 0;
            while i < body.len()
                invariant
                    i <= body@.len(),
                    body@ == self@.snake.body,
                    wf(self@),
                    self@.snake.alive,
                    self@.size == size,
                    size * cell <= u32::MAX,
                    r@.len() == 2 + i,
                    r@[0] == (DrawRect {
                        x: 0,
                        y: 0,
                        width: (size * cell) as u32,
                        height: (size * cell) as u32,
                        color: CellColor::Background,
                    }),
                    r@[1] == cell_rect(self@.snake.head, cell, CellColor::Snake),
                    forall|j: int|
                        0 <= j < i ==> r@[2 + j] == cell_rect(
                            body@[j],
                            cell,
                            CellColor::Snake,
                        ),
                decreases body@.len() - i,
            {
                let p = body[i];
                proof {
                    assert(p.0 * cell <= size * cell && p.1 * cell <= size * cell)
                        by (nonlinear_arith)
                        requires
                            p.0 <= size,
                            p.1 <= size,
                    ;
                }
                r.push(rect_for(p, cell, CellColor::Snake));
                i = i + 1;
            }
        }
        let f = self.fruit();
        proof {
            assert(f.0 * cell <= size * cell && f.1 * cell <= size * cell)
                by (nonlinear_arith)
                requires
                    f.0 <= size,
                    f.1 <= size,
            ;
        }
        r.push(rect_for(f, cell, CellColor::Fruit));
        proof {
            assert(r@ =~= draw_plan(self@, cell));
        }
        r
    }
}

} // verus!
