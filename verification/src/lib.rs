//! The discrete-time simulation core of a grid-based snake game: movement,
//! growth, self-collision, fruit placement and tick timing, with the rules
//! stated as contracts and proved. Input sampling and rendering are outside
//! collaborators: the engine takes plain key states and hands back plain
//! draw data.

pub mod game;
pub mod geometry;
pub mod laws;
pub mod model;
pub mod randomness;
pub mod render;

pub use game::{ConfigError, Game, Snake};
pub use geometry::{Movement, Vector2};
pub use model::{GameView, SnakeView};
pub use render::{CellColor, DrawRect};
