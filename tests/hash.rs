use std::collections::{HashMap, HashSet};
use std::hash::{BuildHasher, Hasher};

use wordle::dictionary::WORDS;
use wordle::hash::{hashes_distinct, perfect_hash, WordHashBuilder};

#[test]
fn test_is_perfect() {
    let mut hashes = HashSet::with_capacity(WORDS.len());
    for word in WORDS.iter() {
        let hash = perfect_hash(word);
        assert!(hashes.replace(hash).is_none());
    }
}

#[test]
fn test_hashmap() {
    let mut hashes = HashMap::with_capacity_and_hasher(WORDS.len(), WordHashBuilder);
    for (i, word) in WORDS.iter().enumerate() {
        println!("hashing: {}@{i}", std::str::from_utf8(&word[..]).unwrap());
        hashes.insert(word, i);
    }
    for (i, word) in WORDS.iter().enumerate() {
        let got = hashes[word];
        assert_eq!(
            got,
            i,
            "{} hashed to {got} instead of {i}",
            std::str::from_utf8(&word[..]).unwrap(),
        );
    }
}

#[test]
fn hash_interleaves_low_bits() {
    assert_eq!(perfect_hash(b"AAAAA"), 124);
    assert_eq!(perfect_hash(b"ABOUT"), 1615267380);
    assert_eq!(perfect_hash(&[0; 5]), 0);
    // bits above the fifth do not count
    assert_eq!(perfect_hash(b"aaaaa"), perfect_hash(b"AAAAA"));
}

#[test]
fn hasher_ignores_length_prefix() {
    let mut h = WordHashBuilder.build_hasher();
    h.write(&5usize.to_ne_bytes());
    h.write(b"ABOUT");
    h.write(&8usize.to_ne_bytes());
    assert_eq!(h.finish(), perfect_hash(b"ABOUT"));
    assert_eq!(WordHashBuilder.hash_one(b"ABOUT"), perfect_hash(b"ABOUT"));
}

#[test]
fn dictionary_is_sorted_capitals() {
    assert!(!WORDS.is_empty());
    for w in WORDS.iter() {
        assert!(w.iter().all(|b| b.is_ascii_uppercase()));
    }
    for pair in WORDS.windows(2) {
        assert!(pair[0] < pair[1]);
    }
}

#[test]
fn dictionary_hashes_are_distinct() {
    assert!(hashes_distinct(&WORDS));
    assert!(hashes_distinct(&[]));
    assert!(hashes_distinct(&[*b"CRANE", *b"CRATE"]));
    assert!(!hashes_distinct(&[*b"CRANE", *b"PIOUS", *b"crane"]));
}

#[test]
fn fresh_hasher_hashes_to_zero() {
    let h = WordHashBuilder.build_hasher();
    assert_eq!(h.finish(), 0);
}
