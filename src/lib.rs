//! Scoring and dictionary engine for a five-letter word-guessing game.

pub mod board;
pub mod dictionary;
pub mod hash;
pub mod random;
pub mod request;
pub mod score;
pub mod scoring;
pub mod stats;
pub mod word;
