//! A hash over five-letter words that is collision-free on words of capital letters.

use vstd::prelude::*;

use crate::word::Word;

verus! {

broadcast use vstd::array::group_array_axioms;

/// The five low bits of `byte`, bit `b` moved to position `6 * b + i`.
pub open spec fn lane(byte: u8, i: u64) -> u64 {
    ((byte & 1u8) as u64) << i | (((byte >> 1u8) & 1u8) as u64) << ((6 + i) as u64) | (((byte
        >> 2u8) & 1u8) as u64) << ((12 + i) as u64) | (((byte >> 3u8) & 1u8) as u64) << ((18
        + i) as u64) | (((byte >> 4u8) & 1u8) as u64) << ((24 + i) as u64)
}

/// The lanes of the first `n` bytes of `w`, interleaved.
pub open spec fn lanes(w: Seq<u8>, n: nat) -> u64
    decreases n,
{
    if n == 0 {
        0
    } else {
        lanes(w, (n - 1) as nat) | lane(w[n - 1], (n - 1) as u64)
    }
}

/// The hash of a word: its five lanes interleaved, then shifted left by two bits so that
/// the top bits vary too.
pub open spec fn word_hash(w: Seq<u8>) -> u64 {
    lanes(w, 5) << 2u64
}

/// `w` is five capital ASCII letters.
pub open spec fn is_upper_word(w: Seq<u8>) -> bool {
    w.len() == 5 && forall|i: int| 0 <= i < 5 ==> 65 <= #[trigger] w[i] <= 90
}

/// Moves the five low bits of `byte` to positions `6 * b + i`.
fn spread(byte: u8, i: u64) -> (r: u64)
    requires
        i < 5,
    ensures
        r == lane(byte, i),
{
    ((byte & 1) as u64) << i | (((byte >> 1) & 1) as u64) << (6 + i) | (((byte >> 2) & 1) as u64)
        << (12 + i) | (((byte >> 3) & 1) as u64) << (18 + i) | (((byte >> 4) & 1) as u64) << (24
        + i)
}

/// The hash of `w`: bit `b` (below 5) of byte `i` goes to bit `6 * b + i + 2`.
pub fn perfect_hash(w: &Word) -> (r: u64)
    ensures
        r == word_hash(w@),
{
    let mut hash: u64 = 0;
    let mut i: usize = 0;
    while i < 5
        invariant
            i <= 5,
            hash == lanes(w@, i as nat),
        decreases 5 - i,
    {
        hash = hash | spread(w[i], i as u64);
        i = i + 1;
    }
    hash << 2
}

proof fn lemma_lanes_low_bits(
    a0: u8,
    a1: u8,
    a2: u8,
    a3: u8,
    a4: u8,
    b0: u8,
    b1: u8,
    b2: u8,
    b3: u8,
    b4: u8,
)
    by (bit_vector)
    requires
        (0u64 | lane(a0, 0) | lane(a1, 1) | lane(a2, 2) | lane(a3, 3) | lane(a4, 4)) << 2u64 == (0u64
            | lane(b0, 0) | lane(b1, 1) | lane(b2, 2) | lane(b3, 3) | lane(b4, 4)) << 2u64,
    ensures
        a0 & 31 == b0 & 31,
        a1 & 31 == b1 & 31,
        a2 & 31 == b2 & 31,
        a3 & 31 == b3 & 31,
        a4 & 31 == b4 & 31,
{
}

proof fn lemma_letter_low_bits(a: u8, b: u8)
    by (bit_vector)
    requires
        65 <= a <= 90,
        65 <= b <= 90,
        a & 31 == b & 31,
    ensures
        a == b,
{
}

/// Two words of capital letters with the same hash are the same word.
pub proof fn lemma_hash_injective(a: Seq<u8>, b: Seq<u8>)
    requires
        is_upper_word(a),
        is_upper_word(b),
        word_hash(a) == word_hash(b),
    ensures
        a == b,
{
    reveal_with_fuel(lanes, 6);
    lemma_lanes_low_bits(a[0], a[1], a[2], a[3], a[4], b[0], b[1], b[2], b[3], b[4]);
    lemma_letter_low_bits(a[0], b[0]);
    lemma_letter_low_bits(a[1], b[1]);
    lemma_letter_low_bits(a[2], b[2]);
    lemma_letter_low_bits(a[3], b[3]);
    lemma_letter_low_bits(a[4], b[4]);
    assert(a =~= b);
}


/// Whether no two of `words` share a hash: the exhaustive check that the hash is perfect on
/// a given word list.
pub fn hashes_distinct(words: &[Word]) -> (r: bool)
    ensures
        r == (forall|i: int, j: int|
            0 <= i < j < words@.len() ==> word_hash(#[trigger] words@[i]@) != word_hash(
                #[trigger] words@[j]@,
            )),
{
    let n = words.len();
    let mut hashes: Vec<u64> = Vec::new();
    let mut k: usize = 0;
    while k < n
        invariant
            k <= n == words@.len(),
            hashes@.len() == k,
            forall|m: int| 0 <= m < k ==> hashes@[m] == word_hash(#[trigger] words@[m]@),
        decreases n - k,
    {
        hashes.push(perfect_hash(&words[k]));
        k = k + 1;
    }
    let mut j: usize = 0;
    while j < n
        invariant
            j <= n == words@.len(),
            hashes@.len() == n,
            forall|m: int| 0 <= m < n ==> hashes@[m] == word_hash(#[trigger] words@[m]@),
            forall|a: int, b: int|
                0 <= a < b < j ==> word_hash(#[trigger] words@[a]@) != word_hash(
                    #[trigger] words@[b]@,
                ),
        decreases n - j,
    {
        let mut i: usize = 0;
        while i < j
            invariant
                i <= j < n == words@.len(),
                hashes@.len() == n,
                forall|m: int| 0 <= m < n ==> hashes@[m] == word_hash(#[trigger] words@[m]@),
                forall|a: int, b: int|
                    0 <= a < b < j ==> word_hash(#[trigger] words@[a]@) != word_hash(
                        #[trigger] words@[b]@,
                    ),
                forall|a: int| 0 <= a < i ==> word_hash(#[trigger] words@[a]@) != word_hash(words@[j as int]@),
            decreases j - i,
        {
            if hashes[i] == hashes[j] {
                assert(word_hash(words@[i as int]@) == word_hash(words@[j as int]@));
                return false;
            }
            i = i + 1;
        }
        j = j + 1;
    }
    true
}

/// A hasher for hash tables keyed by words: it keeps the last five-byte write and finishes
/// with [`perfect_hash`] of it.
#[derive(Clone, Copy, Debug, Default)]
pub struct WordHasher(Word);

/// Builds a fresh [`WordHasher`] for each key.
#[derive(Clone, Copy, Debug, Default)]
pub struct WordHashBuilder;

impl WordHasher {
    /// The word last written.
    pub closed spec fn held(&self) -> Seq<u8> {
        self.0@
    }

    /// Takes in the bytes that a key hands over. A word hashes its length first, as one
    /// machine word (four or eight bytes), then its five bytes: only a five-byte write is
    /// kept, so that the length cannot disturb the hash.
    pub fn absorb(&mut self, bytes: &[u8])
        ensures
            bytes@.len() == 5 ==> final(self).held() == bytes@,
            bytes@.len() != 5 ==> final(self).held() == old(self).held(),
    {
        if bytes.len() == 5 {
            self.0 = [bytes[0], bytes[1], bytes[2], bytes[3], bytes[4]];
            assert(self.0@ =~= bytes@);
        }
    }

    /// The hash of the word last written.
    pub fn digest(&self) -> (r: u64)
        ensures
            r == word_hash(self.held()),
    {
        perfect_hash(&self.0)
    }
}

impl std::hash::Hasher for WordHasher {
    fn finish(&self) -> (r: u64)
        ensures
            r == word_hash(self.held()),
    {
        self.digest()
    }

    fn write(&mut self, bytes: &[u8])
        ensures
            bytes@.len() == 5 ==> final(self).held() == bytes@,
            bytes@.len() != 5 ==> final(self).held() == old(self).held(),
    {
        self.absorb(bytes)
    }
}

impl std::hash::BuildHasher for WordHashBuilder {
    type Hasher = WordHasher;

    fn build_hasher(&self) -> (r: WordHasher)
        ensures
            r.held() == seq![0u8, 0u8, 0u8, 0u8, 0u8],
    {
        let r = WordHasher([0u8; 5]);
        assert(r.held() =~= seq![0u8, 0u8, 0u8, 0u8, 0u8]);
        r
    }
}

} // verus!
