//! A two-player noughts-and-crosses engine: a registry of games, the rules
//! of each game, and the compact encodings through which callers read them.
pub mod board;
pub mod game;
pub mod registry;
pub mod view;
pub mod entry;
pub mod properties;
