//! Core of a mouse-driven tic-tac-toe game: the board and turn state,
//! click handling, win detection, and generation of the textured quad
//! mesh that a renderer draws each frame.

pub mod mesh;
pub mod state;
