//! A verified tic-tac-toe core: a 3x3 board with a win/draw evaluator, a
//! move-application primitive that rejects occupied cells, and an exhaustive
//! minimax decision engine for the automated player.

pub mod board;
pub mod engine;

pub use board::BoardChar;
pub use board::GameOutcome;
pub use board::Move;
pub use board::TicTacToe;
