//! A slot-machine style recommender for backend programming languages.
//!
//! The library holds everything with exact behavior: the built-in language
//! registry and its color rules, validation of a parsed configuration
//! document into a language list, random selection of a winner, and the
//! sixty-frame reel animation that locks each column onto the winner.
//! Terminal rendering, timing, and file handling live outside.

pub mod config;
pub mod languages;
pub mod reels;
pub mod selection;
pub mod text;
