pub mod dining;
pub mod game;
pub mod garden;
pub mod matching;
pub mod parse;
pub mod rect;
pub mod session;
pub mod text;
