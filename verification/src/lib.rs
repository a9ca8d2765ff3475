//! Engine control and game analysis for chess: the text protocol spoken with an
//! external engine, and the retrospective classification of every move of a game.

pub mod analysis;
pub mod analyzer;
pub mod board;
pub mod controller;
pub mod fen;
pub mod protocol;
pub mod session;
pub mod text;
