//! The rules of a falling-block puzzle on a ten by twenty playfield: the
//! grid, the ticker that paces the game, the draw of the next piece, and
//! the state machine that drops and locks the piece in play.

pub mod board;
pub mod game;
pub mod interval;
pub mod layout;
pub mod randomizer;
pub mod tetris;
pub mod tile;

pub use board::Board;
pub use game::GameState;
pub use game::Playfield;
pub use interval::Interval;
pub use randomizer::Randomizer;
pub use tetris::Tetris;
pub use tile::Tile;
