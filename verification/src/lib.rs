//! Battleship interface logic: the board geometry, the turn states, what the
//! on-screen labels show, where the board coordinates are drawn, and how the
//! cell cursor follows the mouse.

pub mod application;
pub mod domain;
pub mod texto;
