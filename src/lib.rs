//! The rules of a game of tic-tac-toe on a 3 by 3 board: the marks, the
//! state of a game with its moves and its win check, and what a click or a
//! hover on a cell does to the game and to how the cell is drawn.

pub mod game;
pub mod mark;
pub mod screen;
