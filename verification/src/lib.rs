//! A small two-player tic-tac-toe core: a 3x3 board of optional symbols, a
//! validated cell index, turn-taking with occupancy checks, win detection over
//! the eight lines, and text rendering of the grid.

pub mod board;
pub mod game;

pub use board::Board;
pub use board::BoardIndex;
pub use board::BoardIndexOutOfBoundsError;
pub use board::Sym;
pub use game::Game;
pub use game::GamePositionAlreadyFull;

