//! The dictionary: the valid words of the game, in alphabetical order.

use vstd::prelude::*;

use crate::hash::{is_upper_word, lemma_hash_injective, word_hash};
use crate::word::Word;

verus! {

/// The number of words in [`WORDS`].
pub const WORD_COUNT: usize = 412;

/// Every valid word, in capital letters, sorted and without repeats.
pub const WORDS: [Word; WORD_COUNT] = [
    ['A' as u8, 'B' as u8, 'O' as u8, 'U' as u8, 'T' as u8],
    ['A' as u8, 'B' as u8, 'O' as u8, 'V' as u8, 'E' as u8],
    ['A' as u8, 'C' as u8, 'T' as u8, 'O' as u8, 'R' as u8],
    ['A' as u8, 'D' as u8, 'M' as u8, 'I' as u8, 'T' as u8],
    ['A' as u8, 'D' as u8, 'U' as u8, 'L' as u8, 'T' as u8],
    ['A' as u8, 'F' as u8, 'T' as u8, 'E' as u8, 'R' as u8],
    ['A' as u8, 'G' as u8, 'A' as u8, 'I' as u8, 'N' as u8],
    ['A' as u8, 'G' as u8, 'E' as u8, 'N' as u8, 'T' as u8],
    ['A' as u8, 'G' as u8, 'R' as u8, 'E' as u8, 'E' as u8],
    ['A' as u8, 'H' as u8, 'E' as u8, 'A' as u8, 'D' as u8],
    ['A' as u8, 'L' as u8, 'A' as u8, 'R' as u8, 'M' as u8],
    ['A' as u8, 'L' as u8, 'B' as u8, 'U' as u8, 'M' as u8],
    ['A' as u8, 'L' as u8, 'E' as u8, 'R' as u8, 'T' as u8],
    ['A' as u8, 'L' as u8, 'I' as u8, 'K' as u8, 'E' as u8],
    ['A' as u8, 'L' as u8, 'I' as u8, 'V' as u8, 'E' as u8],
    ['A' as u8, 'L' as u8, 'L' as u8, 'O' as u8, 'W' as u8],
    ['A' as u8, 'L' as u8, 'O' as u8, 'N' as u8, 'E' as u8],
    ['A' as u8, 'L' as u8, 'O' as u8, 'N' as u8, 'G' as u8],
    ['A' as u8, 'L' as u8, 'T' as u8, 'E' as u8, 'R' as u8],
    ['A' as u8, 'M' as u8, 'O' as u8, 'N' as u8, 'G' as u8],
    ['A' as u8, 'N' as u8, 'G' as u8, 'E' as u8, 'R' as u8],
    ['A' as u8, 'N' as u8, 'G' as u8, 'L' as u8, 'E' as u8],
    ['A' as u8, 'N' as u8, 'G' as u8, 'R' as u8, 'Y' as u8],
    ['A' as u8, 'P' as u8, 'A' as u8, 'R' as u8, 'T' as u8],
    ['A' as u8, 'P' as u8, 'P' as u8, 'L' as u8, 'E' as u8],
    ['A' as u8, 'P' as u8, 'P' as u8, 'L' as u8, 'Y' as u8],
    ['A' as u8, 'R' as u8, 'E' as u8, 'N' as u8, 'A' as u8],
    ['A' as u8, 'R' as u8, 'G' as u8, 'U' as u8, 'E' as u8],
    ['A' as u8, 'R' as u8, 'I' as u8, 'S' as u8, 'E' as u8],
    ['A' as u8, 'R' as u8, 'R' as u8, 'A' as u8, 'Y' as u8],
    ['A' as u8, 'S' as u8, 'I' as u8, 'D' as u8, 'E' as u8],
    ['A' as u8, 'S' as u8, 'S' as u8, 'E' as u8, 'T' as u8],
    ['A' as u8, 'U' as u8, 'D' as u8, 'I' as u8, 'O' as u8],
    ['A' as u8, 'V' as u8, 'O' as u8, 'I' as u8, 'D' as u8],
    ['A' as u8, 'W' as u8, 'A' as u8, 'R' as u8, 'D' as u8],
    ['A' as u8, 'W' as u8, 'A' as u8, 'R' as u8, 'E' as u8],
    ['B' as u8, 'A' as u8, 'D' as u8, 'L' as u8, 'Y' as u8],
    ['B' as u8, 'A' as u8, 'K' as u8, 'E' as u8, 'R' as u8],
    ['B' as u8, 'A' as u8, 'S' as u8, 'I' as u8, 'C' as u8],
    ['B' as u8, 'E' as u8, 'A' as u8, 'C' as u8, 'H' as u8],
    ['B' as u8, 'E' as u8, 'G' as u8, 'A' as u8, 'N' as u8],
    ['B' as u8, 'E' as u8, 'G' as u8, 'I' as u8, 'N' as u8],
    ['B' as u8, 'E' as u8, 'I' as u8, 'N' as u8, 'G' as u8],
    ['B' as u8, 'E' as u8, 'L' as u8, 'O' as u8, 'W' as u8],
    ['B' as u8, 'E' as u8, 'N' as u8, 'C' as u8, 'H' as u8],
    ['B' as u8, 'I' as u8, 'R' as u8, 'D' as u8, 'S' as u8],
    ['B' as u8, 'I' as u8, 'R' as u8, 'T' as u8, 'H' as u8],
    ['B' as u8, 'L' as u8, 'A' as u8, 'C' as u8, 'K' as u8],
    ['B' as u8, 'L' as u8, 'A' as u8, 'M' as u8, 'E' as u8],
    ['B' as u8, 'L' as u8, 'I' as u8, 'N' as u8, 'D' as u8],
    ['B' as u8, 'L' as u8, 'O' as u8, 'C' as u8, 'K' as u8],
    ['B' as u8, 'L' as u8, 'O' as u8, 'O' as u8, 'D' as u8],
    ['B' as u8, 'O' as u8, 'A' as u8, 'R' as u8, 'D' as u8],
    ['B' as u8, 'R' as u8, 'A' as u8, 'I' as u8, 'N' as u8],
    ['B' as u8, 'R' as u8, 'A' as u8, 'N' as u8, 'D' as u8],
    ['B' as u8, 'R' as u8, 'E' as u8, 'A' as u8, 'D' as u8],
    ['B' as u8, 'R' as u8, 'E' as u8, 'A' as u8, 'K' as u8],
    ['B' as u8, 'R' as u8, 'I' as u8, 'E' as u8, 'F' as u8],
    ['B' as u8, 'R' as u8, 'I' as u8, 'N' as u8, 'G' as u8],
    ['B' as u8, 'R' as u8, 'O' as u8, 'A' as u8, 'D' as u8],
    ['B' as u8, 'R' as u8, 'O' as u8, 'W' as u8, 'N' as u8],
    ['B' as u8, 'U' as u8, 'I' as u8, 'L' as u8, 'D' as u8],
    ['B' as u8, 'U' as u8, 'Y' as u8, 'E' as u8, 'R' as u8],
    ['C' as u8, 'A' as u8, 'B' as u8, 'L' as u8, 'E' as u8],
    ['C' as u8, 'A' as u8, 'R' as u8, 'G' as u8, 'O' as u8],
    ['C' as u8, 'A' as u8, 'R' as u8, 'R' as u8, 'Y' as u8],
    ['C' as u8, 'A' as u8, 'T' as u8, 'C' as u8, 'H' as u8],
    ['C' as u8, 'A' as u8, 'U' as u8, 'S' as u8, 'E' as u8],
    ['C' as u8, 'H' as u8, 'A' as u8, 'I' as u8, 'N' as u8],
    ['C' as u8, 'H' as u8, 'A' as u8, 'I' as u8, 'R' as u8],
    ['C' as u8, 'H' as u8, 'A' as u8, 'R' as u8, 'T' as u8],
    ['C' as u8, 'H' as u8, 'A' as u8, 'S' as u8, 'E' as u8],
    ['C' as u8, 'H' as u8, 'E' as u8, 'A' as u8, 'P' as u8],
    ['C' as u8, 'H' as u8, 'E' as u8, 'C' as u8, 'K' as u8],
    ['C' as u8, 'H' as u8, 'E' as u8, 'S' as u8, 'T' as u8],
    ['C' as u8, 'H' as u8, 'I' as u8, 'E' as u8, 'F' as u8],
    ['C' as u8, 'H' as u8, 'I' as u8, 'L' as u8, 'D' as u8],
    ['C' as u8, 'L' as u8, 'A' as u8, 'I' as u8, 'M' as u8],
    ['C' as u8, 'L' as u8, 'A' as u8, 'S' as u8, 'S' as u8],
    ['C' as u8, 'L' as u8, 'E' as u8, 'A' as u8, 'N' as u8],
    ['C' as u8, 'L' as u8, 'E' as u8, 'A' as u8, 'R' as u8],
    ['C' as u8, 'L' as u8, 'O' as u8, 'C' as u8, 'K' as u8],
    ['C' as u8, 'L' as u8, 'O' as u8, 'S' as u8, 'E' as u8],
    ['C' as u8, 'O' as u8, 'A' as u8, 'C' as u8, 'H' as u8],
    ['C' as u8, 'O' as u8, 'A' as u8, 'S' as u8, 'T' as u8],
    ['C' as u8, 'O' as u8, 'U' as u8, 'N' as u8, 'T' as u8],
    ['C' as u8, 'O' as u8, 'U' as u8, 'R' as u8, 'T' as u8],
    ['C' as u8, 'O' as u8, 'V' as u8, 'E' as u8, 'R' as u8],
    ['C' as u8, 'R' as u8, 'A' as u8, 'F' as u8, 'T' as u8],
    ['C' as u8, 'R' as u8, 'A' as u8, 'S' as u8, 'H' as u8],
    ['C' as u8, 'R' as u8, 'E' as u8, 'A' as u8, 'M' as u8],
    ['C' as u8, 'R' as u8, 'I' as u8, 'M' as u8, 'E' as u8],
    ['C' as u8, 'R' as u8, 'O' as u8, 'S' as u8, 'S' as u8],
    ['C' as u8, 'R' as u8, 'O' as u8, 'W' as u8, 'D' as u8],
    ['C' as u8, 'R' as u8, 'O' as u8, 'W' as u8, 'N' as u8],
    ['C' as u8, 'U' as u8, 'R' as u8, 'V' as u8, 'E' as u8],
    ['C' as u8, 'Y' as u8, 'C' as u8, 'L' as u8, 'E' as u8],
    ['D' as u8, 'A' as u8, 'I' as u8, 'L' as u8, 'Y' as u8],
    ['D' as u8, 'A' as u8, 'N' as u8, 'C' as u8, 'E' as u8],
    ['D' as u8, 'E' as u8, 'A' as u8, 'T' as u8, 'H' as u8],
    ['D' as u8, 'E' as u8, 'L' as u8, 'A' as u8, 'Y' as u8],
    ['D' as u8, 'E' as u8, 'P' as u8, 'T' as u8, 'H' as u8],
    ['D' as u8, 'O' as u8, 'U' as u8, 'B' as u8, 'T' as u8],
    ['D' as u8, 'R' as u8, 'A' as u8, 'F' as u8, 'T' as u8],
    ['D' as u8, 'R' as u8, 'A' as u8, 'M' as u8, 'A' as u8],
    ['D' as u8, 'R' as u8, 'E' as u8, 'A' as u8, 'M' as u8],
    ['D' as u8, 'R' as u8, 'E' as u8, 'S' as u8, 'S' as u8],
    ['D' as u8, 'R' as u8, 'I' as u8, 'N' as u8, 'K' as u8],
    ['D' as u8, 'R' as u8, 'I' as u8, 'V' as u8, 'E' as u8],
    ['E' as u8, 'A' as u8, 'R' as u8, 'L' as u8, 'Y' as u8],
    ['E' as u8, 'A' as u8, 'R' as u8, 'T' as u8, 'H' as u8],
    ['E' as u8, 'I' as u8, 'G' as u8, 'H' as u8, 'T' as u8],
    ['E' as u8, 'L' as u8, 'I' as u8, 'T' as u8, 'E' as u8],
    ['E' as u8, 'M' as u8, 'P' as u8, 'T' as u8, 'Y' as u8],
    ['E' as u8, 'N' as u8, 'E' as u8, 'M' as u8, 'Y' as u8],
    ['E' as u8, 'N' as u8, 'J' as u8, 'O' as u8, 'Y' as u8],
    ['E' as u8, 'N' as u8, 'T' as u8, 'E' as u8, 'R' as u8],
    ['E' as u8, 'N' as u8, 'T' as u8, 'R' as u8, 'Y' as u8],
    ['E' as u8, 'Q' as u8, 'U' as u8, 'A' as u8, 'L' as u8],
    ['E' as u8, 'R' as u8, 'R' as u8, 'O' as u8, 'R' as u8],
    ['E' as u8, 'V' as u8, 'E' as u8, 'N' as u8, 'T' as u8],
    ['E' as u8, 'X' as u8, 'A' as u8, 'C' as u8, 'T' as u8],
    ['E' as u8, 'X' as u8, 'I' as u8, 'S' as u8, 'T' as u8],
    ['E' as u8, 'X' as u8, 'T' as u8, 'R' as u8, 'A' as u8],
    ['F' as u8, 'A' as u8, 'I' as u8, 'T' as u8, 'H' as u8],
    ['F' as u8, 'A' as u8, 'L' as u8, 'S' as u8, 'E' as u8],
    ['F' as u8, 'A' as u8, 'U' as u8, 'L' as u8, 'T' as u8],
    ['F' as u8, 'I' as u8, 'E' as u8, 'L' as u8, 'D' as u8],
    ['F' as u8, 'I' as u8, 'F' as u8, 'T' as u8, 'H' as u8],
    ['F' as u8, 'I' as u8, 'F' as u8, 'T' as u8, 'Y' as u8],
    ['F' as u8, 'I' as u8, 'G' as u8, 'H' as u8, 'T' as u8],
    ['F' as u8, 'I' as u8, 'N' as u8, 'A' as u8, 'L' as u8],
    ['F' as u8, 'I' as u8, 'R' as u8, 'S' as u8, 'T' as u8],
    ['F' as u8, 'L' as u8, 'O' as u8, 'O' as u8, 'R' as u8],
    ['F' as u8, 'O' as u8, 'C' as u8, 'U' as u8, 'S' as u8],
    ['F' as u8, 'O' as u8, 'R' as u8, 'C' as u8, 'E' as u8],
    ['F' as u8, 'R' as u8, 'A' as u8, 'M' as u8, 'E' as u8],
    ['F' as u8, 'R' as u8, 'E' as u8, 'S' as u8, 'H' as u8],
    ['F' as u8, 'R' as u8, 'O' as u8, 'N' as u8, 'T' as u8],
    ['F' as u8, 'R' as u8, 'U' as u8, 'I' as u8, 'T' as u8],
    ['F' as u8, 'U' as u8, 'N' as u8, 'N' as u8, 'Y' as u8],
    ['G' as u8, 'I' as u8, 'A' as u8, 'N' as u8, 'T' as u8],
    ['G' as u8, 'I' as u8, 'V' as u8, 'E' as u8, 'N' as u8],
    ['G' as u8, 'L' as u8, 'A' as u8, 'S' as u8, 'S' as u8],
    ['G' as u8, 'R' as u8, 'A' as u8, 'C' as u8, 'E' as u8],
    ['G' as u8, 'R' as u8, 'A' as u8, 'D' as u8, 'E' as u8],
    ['G' as u8, 'R' as u8, 'A' as u8, 'N' as u8, 'D' as u8],
    ['G' as u8, 'R' as u8, 'A' as u8, 'N' as u8, 'T' as u8],
    ['G' as u8, 'R' as u8, 'A' as u8, 'S' as u8, 'S' as u8],
    ['G' as u8, 'R' as u8, 'E' as u8, 'A' as u8, 'T' as u8],
    ['G' as u8, 'R' as u8, 'E' as u8, 'E' as u8, 'N' as u8],
    ['G' as u8, 'R' as u8, 'O' as u8, 'S' as u8, 'S' as u8],
    ['G' as u8, 'R' as u8, 'O' as u8, 'U' as u8, 'P' as u8],
    ['G' as u8, 'U' as u8, 'A' as u8, 'R' as u8, 'D' as u8],
    ['G' as u8, 'U' as u8, 'E' as u8, 'S' as u8, 'S' as u8],
    ['G' as u8, 'U' as u8, 'I' as u8, 'D' as u8, 'E' as u8],
    ['H' as u8, 'A' as u8, 'P' as u8, 'P' as u8, 'Y' as u8],
    ['H' as u8, 'E' as u8, 'A' as u8, 'R' as u8, 'T' as u8],
    ['H' as u8, 'E' as u8, 'A' as u8, 'V' as u8, 'Y' as u8],
    ['H' as u8, 'O' as u8, 'R' as u8, 'S' as u8, 'E' as u8],
    ['H' as u8, 'O' as u8, 'T' as u8, 'E' as u8, 'L' as u8],
    ['H' as u8, 'O' as u8, 'U' as u8, 'S' as u8, 'E' as u8],
    ['H' as u8, 'U' as u8, 'M' as u8, 'A' as u8, 'N' as u8],
    ['I' as u8, 'D' as u8, 'E' as u8, 'A' as u8, 'L' as u8],
    ['I' as u8, 'M' as u8, 'A' as u8, 'G' as u8, 'E' as u8],
    ['I' as u8, 'N' as u8, 'D' as u8, 'E' as u8, 'X' as u8],
    ['I' as u8, 'N' as u8, 'N' as u8, 'E' as u8, 'R' as u8],
    ['I' as u8, 'N' as u8, 'P' as u8, 'U' as u8, 'T' as u8],
    ['I' as u8, 'S' as u8, 'S' as u8, 'U' as u8, 'E' as u8],
    ['J' as u8, 'O' as u8, 'I' as u8, 'N' as u8, 'T' as u8],
    ['J' as u8, 'U' as u8, 'D' as u8, 'G' as u8, 'E' as u8],
    ['K' as u8, 'N' as u8, 'I' as u8, 'F' as u8, 'E' as u8],
    ['L' as u8, 'A' as u8, 'R' as u8, 'G' as u8, 'E' as u8],
    ['L' as u8, 'A' as u8, 'S' as u8, 'E' as u8, 'R' as u8],
    ['L' as u8, 'A' as u8, 'T' as u8, 'E' as u8, 'R' as u8],
    ['L' as u8, 'A' as u8, 'U' as u8, 'G' as u8, 'H' as u8],
    ['L' as u8, 'A' as u8, 'Y' as u8, 'E' as u8, 'R' as u8],
    ['L' as u8, 'E' as u8, 'A' as u8, 'R' as u8, 'N' as u8],
    ['L' as u8, 'E' as u8, 'A' as u8, 'S' as u8, 'T' as u8],
    ['L' as u8, 'E' as u8, 'A' as u8, 'V' as u8, 'E' as u8],
    ['L' as u8, 'E' as u8, 'G' as u8, 'A' as u8, 'L' as u8],
    ['L' as u8, 'E' as u8, 'M' as u8, 'O' as u8, 'N' as u8],
    ['L' as u8, 'E' as u8, 'V' as u8, 'E' as u8, 'L' as u8],
    ['L' as u8, 'I' as u8, 'E' as u8, 'G' as u8, 'E' as u8],
    ['L' as u8, 'I' as u8, 'E' as u8, 'N' as u8, 'S' as u8],
    ['L' as u8, 'I' as u8, 'G' as u8, 'H' as u8, 'T' as u8],
    ['L' as u8, 'I' as u8, 'M' as u8, 'I' as u8, 'T' as u8],
    ['L' as u8, 'I' as u8, 'T' as u8, 'R' as u8, 'E' as u8],
    ['L' as u8, 'O' as u8, 'C' as u8, 'A' as u8, 'L' as u8],
    ['L' as u8, 'O' as u8, 'G' as u8, 'I' as u8, 'C' as u8],
    ['L' as u8, 'O' as u8, 'O' as u8, 'S' as u8, 'E' as u8],
    ['L' as u8, 'O' as u8, 'S' as u8, 'S' as u8, 'Y' as u8],
    ['L' as u8, 'O' as u8, 'W' as u8, 'E' as u8, 'R' as u8],
    ['L' as u8, 'U' as u8, 'C' as u8, 'K' as u8, 'Y' as u8],
    ['L' as u8, 'U' as u8, 'N' as u8, 'C' as u8, 'H' as u8],
    ['M' as u8, 'A' as u8, 'G' as u8, 'I' as u8, 'C' as u8],
    ['M' as u8, 'A' as u8, 'J' as u8, 'O' as u8, 'R' as u8],
    ['M' as u8, 'A' as u8, 'K' as u8, 'E' as u8, 'R' as u8],
    ['M' as u8, 'A' as u8, 'R' as u8, 'C' as u8, 'H' as u8],
    ['M' as u8, 'A' as u8, 'T' as u8, 'C' as u8, 'H' as u8],
    ['M' as u8, 'A' as u8, 'Y' as u8, 'B' as u8, 'E' as u8],
    ['M' as u8, 'A' as u8, 'Y' as u8, 'O' as u8, 'R' as u8],
    ['M' as u8, 'E' as u8, 'D' as u8, 'I' as u8, 'A' as u8],
    ['M' as u8, 'E' as u8, 'T' as u8, 'A' as u8, 'L' as u8],
    ['M' as u8, 'I' as u8, 'G' as u8, 'H' as u8, 'T' as u8],
    ['M' as u8, 'I' as u8, 'N' as u8, 'O' as u8, 'R' as u8],
    ['M' as u8, 'O' as u8, 'D' as u8, 'E' as u8, 'L' as u8],
    ['M' as u8, 'O' as u8, 'N' as u8, 'E' as u8, 'Y' as u8],
    ['M' as u8, 'O' as u8, 'N' as u8, 'T' as u8, 'H' as u8],
    ['M' as u8, 'O' as u8, 'R' as u8, 'A' as u8, 'L' as u8],
    ['M' as u8, 'O' as u8, 'T' as u8, 'O' as u8, 'R' as u8],
    ['M' as u8, 'O' as u8, 'U' as u8, 'N' as u8, 'T' as u8],
    ['M' as u8, 'O' as u8, 'U' as u8, 'S' as u8, 'E' as u8],
    ['M' as u8, 'O' as u8, 'U' as u8, 'T' as u8, 'H' as u8],
    ['M' as u8, 'O' as u8, 'V' as u8, 'I' as u8, 'E' as u8],
    ['M' as u8, 'U' as u8, 'S' as u8, 'I' as u8, 'C' as u8],
    ['N' as u8, 'E' as u8, 'R' as u8, 'V' as u8, 'E' as u8],
    ['N' as u8, 'E' as u8, 'V' as u8, 'E' as u8, 'R' as u8],
    ['N' as u8, 'I' as u8, 'G' as u8, 'H' as u8, 'T' as u8],
    ['N' as u8, 'O' as u8, 'I' as u8, 'S' as u8, 'E' as u8],
    ['N' as u8, 'O' as u8, 'R' as u8, 'T' as u8, 'H' as u8],
    ['N' as u8, 'O' as u8, 'V' as u8, 'E' as u8, 'L' as u8],
    ['N' as u8, 'U' as u8, 'R' as u8, 'S' as u8, 'E' as u8],
    ['O' as u8, 'C' as u8, 'E' as u8, 'A' as u8, 'N' as u8],
    ['O' as u8, 'F' as u8, 'F' as u8, 'E' as u8, 'R' as u8],
    ['O' as u8, 'F' as u8, 'T' as u8, 'E' as u8, 'N' as u8],
    ['O' as u8, 'R' as u8, 'D' as u8, 'E' as u8, 'R' as u8],
    ['O' as u8, 'T' as u8, 'H' as u8, 'E' as u8, 'R' as u8],
    ['O' as u8, 'U' as u8, 'T' as u8, 'E' as u8, 'R' as u8],
    ['O' as u8, 'W' as u8, 'N' as u8, 'E' as u8, 'R' as u8],
    ['P' as u8, 'A' as u8, 'I' as u8, 'N' as u8, 'T' as u8],
    ['P' as u8, 'A' as u8, 'N' as u8, 'E' as u8, 'L' as u8],
    ['P' as u8, 'A' as u8, 'P' as u8, 'E' as u8, 'R' as u8],
    ['P' as u8, 'A' as u8, 'R' as u8, 'T' as u8, 'Y' as u8],
    ['P' as u8, 'E' as u8, 'A' as u8, 'C' as u8, 'E' as u8],
    ['P' as u8, 'H' as u8, 'A' as u8, 'S' as u8, 'E' as u8],
    ['P' as u8, 'H' as u8, 'O' as u8, 'N' as u8, 'E' as u8],
    ['P' as u8, 'I' as u8, 'A' as u8, 'N' as u8, 'O' as u8],
    ['P' as u8, 'I' as u8, 'E' as u8, 'C' as u8, 'E' as u8],
    ['P' as u8, 'I' as u8, 'L' as u8, 'O' as u8, 'T' as u8],
    ['P' as u8, 'I' as u8, 'T' as u8, 'C' as u8, 'H' as u8],
    ['P' as u8, 'L' as u8, 'A' as u8, 'C' as u8, 'E' as u8],
    ['P' as u8, 'L' as u8, 'A' as u8, 'I' as u8, 'N' as u8],
    ['P' as u8, 'L' as u8, 'A' as u8, 'N' as u8, 'E' as u8],
    ['P' as u8, 'L' as u8, 'A' as u8, 'N' as u8, 'T' as u8],
    ['P' as u8, 'L' as u8, 'A' as u8, 'T' as u8, 'E' as u8],
    ['P' as u8, 'O' as u8, 'I' as u8, 'N' as u8, 'T' as u8],
    ['P' as u8, 'O' as u8, 'U' as u8, 'N' as u8, 'D' as u8],
    ['P' as u8, 'O' as u8, 'W' as u8, 'E' as u8, 'R' as u8],
    ['P' as u8, 'R' as u8, 'E' as u8, 'S' as u8, 'S' as u8],
    ['P' as u8, 'R' as u8, 'I' as u8, 'C' as u8, 'E' as u8],
    ['P' as u8, 'R' as u8, 'I' as u8, 'D' as u8, 'E' as u8],
    ['P' as u8, 'R' as u8, 'I' as u8, 'M' as u8, 'E' as u8],
    ['P' as u8, 'R' as u8, 'I' as u8, 'N' as u8, 'T' as u8],
    ['P' as u8, 'R' as u8, 'I' as u8, 'O' as u8, 'R' as u8],
    ['P' as u8, 'R' as u8, 'I' as u8, 'Z' as u8, 'E' as u8],
    ['P' as u8, 'R' as u8, 'O' as u8, 'O' as u8, 'F' as u8],
    ['P' as u8, 'R' as u8, 'O' as u8, 'U' as u8, 'D' as u8],
    ['P' as u8, 'R' as u8, 'O' as u8, 'V' as u8, 'E' as u8],
    ['Q' as u8, 'U' as u8, 'E' as u8, 'E' as u8, 'N' as u8],
    ['Q' as u8, 'U' as u8, 'I' as u8, 'C' as u8, 'K' as u8],
    ['Q' as u8, 'U' as u8, 'I' as u8, 'E' as u8, 'T' as u8],
    ['Q' as u8, 'U' as u8, 'I' as u8, 'T' as u8, 'E' as u8],
    ['R' as u8, 'A' as u8, 'D' as u8, 'I' as u8, 'O' as u8],
    ['R' as u8, 'A' as u8, 'I' as u8, 'S' as u8, 'E' as u8],
    ['R' as u8, 'A' as u8, 'N' as u8, 'G' as u8, 'E' as u8],
    ['R' as u8, 'A' as u8, 'P' as u8, 'I' as u8, 'D' as u8],
    ['R' as u8, 'A' as u8, 'T' as u8, 'I' as u8, 'O' as u8],
    ['R' as u8, 'E' as u8, 'A' as u8, 'C' as u8, 'H' as u8],
    ['R' as u8, 'E' as u8, 'A' as u8, 'D' as u8, 'Y' as u8],
    ['R' as u8, 'E' as u8, 'F' as u8, 'E' as u8, 'R' as u8],
    ['R' as u8, 'I' as u8, 'G' as u8, 'H' as u8, 'T' as u8],
    ['R' as u8, 'I' as u8, 'V' as u8, 'E' as u8, 'R' as u8],
    ['R' as u8, 'O' as u8, 'U' as u8, 'G' as u8, 'H' as u8],
    ['R' as u8, 'O' as u8, 'U' as u8, 'N' as u8, 'D' as u8],
    ['R' as u8, 'O' as u8, 'U' as u8, 'T' as u8, 'E' as u8],
    ['R' as u8, 'O' as u8, 'Y' as u8, 'A' as u8, 'L' as u8],
    ['R' as u8, 'U' as u8, 'R' as u8, 'A' as u8, 'L' as u8],
    ['S' as u8, 'C' as u8, 'A' as u8, 'L' as u8, 'E' as u8],
    ['S' as u8, 'C' as u8, 'E' as u8, 'N' as u8, 'E' as u8],
    ['S' as u8, 'C' as u8, 'O' as u8, 'P' as u8, 'E' as u8],
    ['S' as u8, 'C' as u8, 'O' as u8, 'R' as u8, 'E' as u8],
    ['S' as u8, 'E' as u8, 'N' as u8, 'S' as u8, 'E' as u8],
    ['S' as u8, 'E' as u8, 'R' as u8, 'V' as u8, 'E' as u8],
    ['S' as u8, 'E' as u8, 'V' as u8, 'E' as u8, 'N' as u8],
    ['S' as u8, 'H' as u8, 'A' as u8, 'L' as u8, 'L' as u8],
    ['S' as u8, 'H' as u8, 'A' as u8, 'P' as u8, 'E' as u8],
    ['S' as u8, 'H' as u8, 'A' as u8, 'R' as u8, 'E' as u8],
    ['S' as u8, 'H' as u8, 'A' as u8, 'R' as u8, 'P' as u8],
    ['S' as u8, 'H' as u8, 'E' as u8, 'E' as u8, 'T' as u8],
    ['S' as u8, 'H' as u8, 'E' as u8, 'L' as u8, 'F' as u8],
    ['S' as u8, 'H' as u8, 'E' as u8, 'L' as u8, 'L' as u8],
    ['S' as u8, 'H' as u8, 'I' as u8, 'F' as u8, 'T' as u8],
    ['S' as u8, 'H' as u8, 'I' as u8, 'R' as u8, 'T' as u8],
    ['S' as u8, 'H' as u8, 'O' as u8, 'C' as u8, 'K' as u8],
    ['S' as u8, 'H' as u8, 'O' as u8, 'O' as u8, 'T' as u8],
    ['S' as u8, 'H' as u8, 'O' as u8, 'R' as u8, 'T' as u8],
    ['S' as u8, 'I' as u8, 'G' as u8, 'H' as u8, 'T' as u8],
    ['S' as u8, 'K' as u8, 'I' as u8, 'L' as u8, 'L' as u8],
    ['S' as u8, 'L' as u8, 'E' as u8, 'E' as u8, 'P' as u8],
    ['S' as u8, 'L' as u8, 'I' as u8, 'D' as u8, 'E' as u8],
    ['S' as u8, 'M' as u8, 'A' as u8, 'L' as u8, 'L' as u8],
    ['S' as u8, 'M' as u8, 'A' as u8, 'R' as u8, 'T' as u8],
    ['S' as u8, 'M' as u8, 'I' as u8, 'L' as u8, 'E' as u8],
    ['S' as u8, 'M' as u8, 'O' as u8, 'K' as u8, 'E' as u8],
    ['S' as u8, 'O' as u8, 'L' as u8, 'I' as u8, 'D' as u8],
    ['S' as u8, 'O' as u8, 'L' as u8, 'V' as u8, 'E' as u8],
    ['S' as u8, 'O' as u8, 'U' as u8, 'N' as u8, 'D' as u8],
    ['S' as u8, 'O' as u8, 'U' as u8, 'T' as u8, 'H' as u8],
    ['S' as u8, 'P' as u8, 'A' as u8, 'C' as u8, 'E' as u8],
    ['S' as u8, 'P' as u8, 'A' as u8, 'R' as u8, 'E' as u8],
    ['S' as u8, 'P' as u8, 'E' as u8, 'A' as u8, 'K' as u8],
    ['S' as u8, 'P' as u8, 'E' as u8, 'E' as u8, 'D' as u8],
    ['S' as u8, 'P' as u8, 'E' as u8, 'N' as u8, 'D' as u8],
    ['S' as u8, 'P' as u8, 'E' as u8, 'N' as u8, 'T' as u8],
    ['S' as u8, 'P' as u8, 'L' as u8, 'I' as u8, 'T' as u8],
    ['S' as u8, 'P' as u8, 'O' as u8, 'R' as u8, 'T' as u8],
    ['S' as u8, 'T' as u8, 'A' as u8, 'F' as u8, 'F' as u8],
    ['S' as u8, 'T' as u8, 'A' as u8, 'G' as u8, 'E' as u8],
    ['S' as u8, 'T' as u8, 'A' as u8, 'K' as u8, 'E' as u8],
    ['S' as u8, 'T' as u8, 'A' as u8, 'N' as u8, 'D' as u8],
    ['S' as u8, 'T' as u8, 'A' as u8, 'R' as u8, 'K' as u8],
    ['S' as u8, 'T' as u8, 'A' as u8, 'R' as u8, 'T' as u8],
    ['S' as u8, 'T' as u8, 'A' as u8, 'T' as u8, 'E' as u8],
    ['S' as u8, 'T' as u8, 'E' as u8, 'A' as u8, 'M' as u8],
    ['S' as u8, 'T' as u8, 'E' as u8, 'E' as u8, 'L' as u8],
    ['S' as u8, 'T' as u8, 'I' as u8, 'C' as u8, 'K' as u8],
    ['S' as u8, 'T' as u8, 'I' as u8, 'L' as u8, 'L' as u8],
    ['S' as u8, 'T' as u8, 'O' as u8, 'C' as u8, 'K' as u8],
    ['S' as u8, 'T' as u8, 'O' as u8, 'N' as u8, 'E' as u8],
    ['S' as u8, 'T' as u8, 'O' as u8, 'R' as u8, 'E' as u8],
    ['S' as u8, 'T' as u8, 'O' as u8, 'R' as u8, 'M' as u8],
    ['S' as u8, 'T' as u8, 'O' as u8, 'R' as u8, 'Y' as u8],
    ['S' as u8, 'T' as u8, 'R' as u8, 'I' as u8, 'P' as u8],
    ['S' as u8, 'T' as u8, 'U' as u8, 'D' as u8, 'Y' as u8],
    ['S' as u8, 'T' as u8, 'U' as u8, 'F' as u8, 'F' as u8],
    ['S' as u8, 'T' as u8, 'Y' as u8, 'L' as u8, 'E' as u8],
    ['S' as u8, 'U' as u8, 'G' as u8, 'A' as u8, 'R' as u8],
    ['S' as u8, 'U' as u8, 'I' as u8, 'T' as u8, 'E' as u8],
    ['S' as u8, 'U' as u8, 'P' as u8, 'E' as u8, 'R' as u8],
    ['S' as u8, 'W' as u8, 'E' as u8, 'E' as u8, 'T' as u8],
    ['T' as u8, 'A' as u8, 'B' as u8, 'L' as u8, 'E' as u8],
    ['T' as u8, 'A' as u8, 'K' as u8, 'E' as u8, 'N' as u8],
    ['T' as u8, 'A' as u8, 'S' as u8, 'T' as u8, 'E' as u8],
    ['T' as u8, 'E' as u8, 'A' as u8, 'C' as u8, 'H' as u8],
    ['T' as u8, 'E' as u8, 'E' as u8, 'T' as u8, 'H' as u8],
    ['T' as u8, 'E' as u8, 'S' as u8, 'T' as u8, 'S' as u8],
    ['T' as u8, 'H' as u8, 'A' as u8, 'N' as u8, 'K' as u8],
    ['T' as u8, 'H' as u8, 'E' as u8, 'M' as u8, 'E' as u8],
    ['T' as u8, 'H' as u8, 'E' as u8, 'R' as u8, 'E' as u8],
    ['T' as u8, 'H' as u8, 'E' as u8, 'S' as u8, 'E' as u8],
    ['T' as u8, 'H' as u8, 'I' as u8, 'C' as u8, 'K' as u8],
    ['T' as u8, 'H' as u8, 'I' as u8, 'N' as u8, 'G' as u8],
    ['T' as u8, 'H' as u8, 'I' as u8, 'N' as u8, 'K' as u8],
    ['T' as u8, 'H' as u8, 'I' as u8, 'R' as u8, 'D' as u8],
    ['T' as u8, 'H' as u8, 'O' as u8, 'S' as u8, 'E' as u8],
    ['T' as u8, 'H' as u8, 'R' as u8, 'E' as u8, 'E' as u8],
    ['T' as u8, 'H' as u8, 'R' as u8, 'O' as u8, 'W' as u8],
    ['T' as u8, 'I' as u8, 'G' as u8, 'H' as u8, 'T' as u8],
    ['T' as u8, 'I' as u8, 'R' as u8, 'E' as u8, 'D' as u8],
    ['T' as u8, 'I' as u8, 'T' as u8, 'L' as u8, 'E' as u8],
    ['T' as u8, 'O' as u8, 'D' as u8, 'A' as u8, 'Y' as u8],
    ['T' as u8, 'O' as u8, 'P' as u8, 'I' as u8, 'C' as u8],
    ['T' as u8, 'O' as u8, 'T' as u8, 'A' as u8, 'L' as u8],
    ['T' as u8, 'O' as u8, 'U' as u8, 'C' as u8, 'H' as u8],
    ['T' as u8, 'O' as u8, 'U' as u8, 'G' as u8, 'H' as u8],
    ['T' as u8, 'O' as u8, 'W' as u8, 'E' as u8, 'R' as u8],
    ['T' as u8, 'R' as u8, 'A' as u8, 'C' as u8, 'K' as u8],
    ['T' as u8, 'R' as u8, 'A' as u8, 'D' as u8, 'E' as u8],
    ['T' as u8, 'R' as u8, 'A' as u8, 'I' as u8, 'N' as u8],
    ['T' as u8, 'R' as u8, 'E' as u8, 'A' as u8, 'T' as u8],
    ['T' as u8, 'R' as u8, 'E' as u8, 'N' as u8, 'D' as u8],
    ['T' as u8, 'R' as u8, 'I' as u8, 'A' as u8, 'L' as u8],
    ['T' as u8, 'R' as u8, 'U' as u8, 'S' as u8, 'T' as u8],
    ['T' as u8, 'R' as u8, 'U' as u8, 'T' as u8, 'H' as u8],
    ['T' as u8, 'W' as u8, 'I' as u8, 'C' as u8, 'E' as u8],
    ['U' as u8, 'N' as u8, 'D' as u8, 'E' as u8, 'R' as u8],
    ['U' as u8, 'N' as u8, 'I' as u8, 'O' as u8, 'N' as u8],
    ['U' as u8, 'N' as u8, 'I' as u8, 'T' as u8, 'Y' as u8],
    ['U' as u8, 'N' as u8, 'T' as u8, 'I' as u8, 'L' as u8],
    ['U' as u8, 'P' as u8, 'P' as u8, 'E' as u8, 'R' as u8],
    ['U' as u8, 'P' as u8, 'S' as u8, 'E' as u8, 'T' as u8],
    ['U' as u8, 'R' as u8, 'B' as u8, 'A' as u8, 'N' as u8],
    ['U' as u8, 'S' as u8, 'U' as u8, 'A' as u8, 'L' as u8],
    ['V' as u8, 'A' as u8, 'L' as u8, 'U' as u8, 'E' as u8],
    ['V' as u8, 'I' as u8, 'D' as u8, 'E' as u8, 'O' as u8],
    ['V' as u8, 'I' as u8, 'R' as u8, 'U' as u8, 'S' as u8],
    ['V' as u8, 'I' as u8, 'S' as u8, 'I' as u8, 'T' as u8],
    ['V' as u8, 'I' as u8, 'T' as u8, 'A' as u8, 'L' as u8],
    ['V' as u8, 'O' as u8, 'I' as u8, 'C' as u8, 'E' as u8],
    ['W' as u8, 'A' as u8, 'S' as u8, 'T' as u8, 'E' as u8],
    ['W' as u8, 'A' as u8, 'T' as u8, 'C' as u8, 'H' as u8],
    ['W' as u8, 'A' as u8, 'T' as u8, 'E' as u8, 'R' as u8],
    ['W' as u8, 'H' as u8, 'E' as u8, 'E' as u8, 'L' as u8],
    ['W' as u8, 'H' as u8, 'E' as u8, 'R' as u8, 'E' as u8],
    ['W' as u8, 'H' as u8, 'I' as u8, 'C' as u8, 'H' as u8],
    ['W' as u8, 'H' as u8, 'I' as u8, 'L' as u8, 'E' as u8],
    ['W' as u8, 'H' as u8, 'I' as u8, 'T' as u8, 'E' as u8],
    ['W' as u8, 'H' as u8, 'O' as u8, 'L' as u8, 'E' as u8],
    ['W' as u8, 'H' as u8, 'O' as u8, 'S' as u8, 'E' as u8],
    ['W' as u8, 'O' as u8, 'M' as u8, 'A' as u8, 'N' as u8],
    ['W' as u8, 'O' as u8, 'R' as u8, 'D' as u8, 'S' as u8],
    ['W' as u8, 'O' as u8, 'R' as u8, 'L' as u8, 'D' as u8],
    ['W' as u8, 'O' as u8, 'R' as u8, 'R' as u8, 'Y' as u8],
    ['W' as u8, 'O' as u8, 'R' as u8, 'T' as u8, 'H' as u8],
    ['W' as u8, 'O' as u8, 'U' as u8, 'L' as u8, 'D' as u8],
    ['W' as u8, 'O' as u8, 'U' as u8, 'N' as u8, 'D' as u8],
    ['W' as u8, 'R' as u8, 'I' as u8, 'T' as u8, 'E' as u8],
    ['W' as u8, 'R' as u8, 'O' as u8, 'N' as u8, 'G' as u8],
    ['Y' as u8, 'I' as u8, 'E' as u8, 'L' as u8, 'D' as u8],
    ['Y' as u8, 'O' as u8, 'U' as u8, 'N' as u8, 'G' as u8],
    ['Y' as u8, 'O' as u8, 'U' as u8, 'T' as u8, 'H' as u8],
];

/// The order of five-byte words as a number: the bytes as digits in base 256.
pub open spec fn word_key(w: Seq<u8>) -> int {
    (((w[0] * 256 + w[1]) * 256 + w[2]) * 256 + w[3]) * 256 + w[4]
}

/// Entry `i` is capital letters and comes strictly before the next entry.
spec fn entry_ok(i: int) -> bool {
    &&& is_upper_word(WORDS@[i]@)
    &&& i + 1 < WORD_COUNT ==> word_key(WORDS@[i]@) < word_key(WORDS@[i + 1]@)
}

/// Entries `a` up to `b` (exclusive) are all in order.
spec fn entries_ok(a: int, b: int) -> bool
    decreases b - a,
{
    if a >= b {
        true
    } else {
        entry_ok(a) && entries_ok(a + 1, b)
    }
}

#[verifier::spinoff_prover]
proof fn lemma_entries_0()
    ensures
        entries_ok(0, 50),
{
    reveal_with_fuel(entries_ok, 51);
}

#[verifier::spinoff_prover]
proof fn lemma_entries_50()
    ensures
        entries_ok(50, 100),
{
    reveal_with_fuel(entries_ok, 51);
}

#[verifier::spinoff_prover]
proof fn lemma_entries_100()
    ensures
        entries_ok(100, 150),
{
    reveal_with_fuel(entries_ok, 51);
}

#[verifier::spinoff_prover]
proof fn lemma_entries_150()
    ensures
        entries_ok(150, 200),
{
    reveal_with_fuel(entries_ok, 51);
}

#[verifier::spinoff_prover]
proof fn lemma_entries_200()
    ensures
        entries_ok(200, 250),
{
    reveal_with_fuel(entries_ok, 51);
}

#[verifier::spinoff_prover]
proof fn lemma_entries_250()
    ensures
        entries_ok(250, 300),
{
    reveal_with_fuel(entries_ok, 51);
}

#[verifier::spinoff_prover]
proof fn lemma_entries_300()
    ensures
        entries_ok(300, 350),
{
    reveal_with_fuel(entries_ok, 51);
}

#[verifier::spinoff_prover]
proof fn lemma_entries_350()
    ensures
        entries_ok(350, 400),
{
    reveal_with_fuel(entries_ok, 51);
}

#[verifier::spinoff_prover]
proof fn lemma_entries_400()
    ensures
        entries_ok(400, 412),
{
    reveal_with_fuel(entries_ok, 13);
}

/// Two adjacent ranges of entries in order make one.
proof fn lemma_entries_join(a: int, b: int, c: int)
    requires
        a <= b <= c,
        entries_ok(a, b),
        entries_ok(b, c),
    ensures
        entries_ok(a, c),
    decreases b - a,
{
    if a < b {
        lemma_entries_join(a + 1, b, c);
    }
}

/// Each entry of a range in order is in order.
proof fn lemma_entries_each(a: int, b: int, i: int)
    requires
        entries_ok(a, b),
        a <= i < b,
    ensures
        entry_ok(i),
    decreases b - a,
{
    if a < i {
        lemma_entries_each(a + 1, b, i);
    }
}

/// Every entry of the dictionary is in order.
proof fn lemma_all_entries()
    ensures
        forall|i: int| 0 <= i < WORD_COUNT ==> #[trigger] entry_ok(i),
{
    lemma_entries_0();
    lemma_entries_50();
    lemma_entries_100();
    lemma_entries_150();
    lemma_entries_200();
    lemma_entries_250();
    lemma_entries_300();
    lemma_entries_350();
    lemma_entries_400();
    lemma_entries_join(0, 50, 100);
    lemma_entries_join(0, 100, 150);
    lemma_entries_join(0, 150, 200);
    lemma_entries_join(0, 200, 250);
    lemma_entries_join(0, 250, 300);
    lemma_entries_join(0, 300, 350);
    lemma_entries_join(0, 350, 400);
    lemma_entries_join(0, 400, 412);
    assert forall|i: int| 0 <= i < WORD_COUNT implies #[trigger] entry_ok(i) by {
        lemma_entries_each(0, WORD_COUNT as int, i);
    }
}

/// Later entries have larger keys.
proof fn lemma_keys_increase(i: int, j: int)
    requires
        0 <= i < j < WORD_COUNT,
        forall|k: int| 0 <= k < WORD_COUNT ==> #[trigger] entry_ok(k),
    ensures
        word_key(WORDS@[i]@) < word_key(WORDS@[j]@),
    decreases j - i,
{
    assert(entry_ok(i));
    if i + 1 < j {
        lemma_keys_increase(i + 1, j);
    }
}

/// Every word of the dictionary is capital letters.
pub proof fn lemma_dictionary_upper(i: int)
    requires
        0 <= i < WORD_COUNT,
    ensures
        is_upper_word(WORDS@[i]@),
{
    lemma_all_entries();
    assert(entry_ok(i));
}

/// Two different entries of the dictionary have different hashes.
#[verifier::spinoff_prover]
proof fn lemma_pair_distinct(i: int, j: int)
    requires
        0 <= i < j < WORD_COUNT,
    ensures
        word_hash(WORDS@[i]@) != word_hash(WORDS@[j]@),
{
    lemma_all_entries();
    assert(entry_ok(i) && entry_ok(j));
    lemma_keys_increase(i, j);
    if word_hash(WORDS@[i]@) == word_hash(WORDS@[j]@) {
        lemma_hash_injective(WORDS@[i]@, WORDS@[j]@);
    }
}

/// No two words of the dictionary share a hash: the hash is perfect on it.
#[verifier::spinoff_prover]
pub proof fn lemma_dictionary_perfect()
    ensures
        forall|i: int, j: int|
            0 <= i < WORD_COUNT && 0 <= j < WORD_COUNT && i != j ==> #[trigger] word_hash(
                WORDS@[i]@,
            ) != #[trigger] word_hash(WORDS@[j]@),
{
    assert forall|i: int, j: int|
        0 <= i < WORD_COUNT && 0 <= j < WORD_COUNT && i != j implies #[trigger] word_hash(
            WORDS@[i]@,
        ) != #[trigger] word_hash(WORDS@[j]@) by {
        if i < j {
            lemma_pair_distinct(i, j);
        } else {
            lemma_pair_distinct(j, i);
        }
    }
}

} // verus!
