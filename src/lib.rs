//! A two-player 3×3 grid game: board state, placement rules, win and tie
//! detection, wrap-around cursor navigation, board text and the controller
//! that turns input events into moves.

pub mod cursor;
pub mod field;
pub mod render;
pub mod game;
