//! Five-letter words and their construction from raw input.

use vstd::prelude::*;

verus! {

/// A word of the game: five bytes.
pub type Word = [u8; 5];

/// Every byte of `w` is ASCII.
pub open spec fn is_ascii_bytes(w: Seq<u8>) -> bool {
    forall|i: int| 0 <= i < w.len() ==> #[trigger] w[i] < 128
}

/// `w` is a valid word: five ASCII bytes.
pub open spec fn is_word(w: Seq<u8>) -> bool {
    w.len() == 5 && is_ascii_bytes(w)
}


/// Why raw input is not a word.
#[derive(Clone, Copy, Debug, PartialEq, Eq, Structural)]
pub enum InvalidInputError {
    /// The input does not hold exactly five letters.
    InputLength,
    /// The input holds this byte, which is not ASCII.
    NonAscii(u8),
}

/// `b` in capitals: ASCII lower-case letters are raised, every other byte kept.
pub open spec fn to_upper(b: u8) -> u8 {
    if 97 <= b <= 122 {
        (b - 32) as u8
    } else {
        b
    }
}

/// `w` with its ASCII letters in capitals.
pub open spec fn upper_word(w: Seq<u8>) -> Seq<u8> {
    Seq::new(w.len(), |i: int| to_upper(w[i]))
}

/// `k` is the position of the first byte of `b` that is not ASCII.
pub open spec fn is_first_non_ascii(b: Seq<u8>, k: int) -> bool {
    &&& 0 <= k < b.len()
    &&& b[k] >= 128
    &&& forall|j: int| 0 <= j < k ==> b[j] < 128
}

/// The word spelled by `bytes`, in capitals. Fails on a length other than five, and
/// otherwise on the first byte that is not ASCII.
pub fn word_from_bytes(bytes: &[u8]) -> (r: Result<Word, InvalidInputError>)
    ensures
        r == Err::<Word, InvalidInputError>(InvalidInputError::InputLength) <==> bytes@.len() != 5,
        forall|c: u8|
            r == Err::<Word, InvalidInputError>(InvalidInputError::NonAscii(c)) <==> bytes@.len()
                == 5 && exists|k: int| is_first_non_ascii(bytes@, k) && bytes@[k] == c,
        r is Ok <==> is_word(bytes@),
        r is Ok ==> r->Ok_0@ == upper_word(bytes@),
{
    if bytes.len() != 5 {
        return Err(InvalidInputError::InputLength);
    }
    let mut i: usize = 0;
    while i < 5
        invariant
            i <= 5,
            bytes@.len() == 5,
            forall|j: int| 0 <= j < i ==> bytes@[j] < 128,
        decreases 5 - i,
    {
        if bytes[i] >= 128 {
            assert(is_first_non_ascii(bytes@, i as int));
            let r = Err(InvalidInputError::NonAscii(bytes[i]));
            proof {
                assert forall|c: u8|
                    r == Err::<Word, InvalidInputError>(InvalidInputError::NonAscii(c))
                        <== exists|k: int| is_first_non_ascii(bytes@, k) && bytes@[k] == c by {
                    if exists|k: int| is_first_non_ascii(bytes@, k) && bytes@[k] == c {
                        let k = choose|k: int| is_first_non_ascii(bytes@, k) && bytes@[k] == c;
                        if k < i {
                        } else if k > i {
                            assert(bytes@[i as int] < 128);
                        }
                    }
                }
            }
            return r;
        }
        i = i + 1;
    }
    let mut w: Word = [0u8; 5];
    let mut i: usize = 0;
    while i < 5
        invariant
            i <= 5,
            bytes@.len() == 5,
            forall|j: int| 0 <= j < i ==> #[trigger] w@[j] == to_upper(bytes@[j]),
        decreases 5 - i,
    {
        let b = bytes[i];
        w[i] = if 97 <= b && b <= 122 {
            b - 32
        } else {
            b
        };
        i = i + 1;
    }
    assert(w@ =~= upper_word(bytes@));
    Ok(w)
}

/// The guess typed on one line: five ASCII bytes then a newline, read as a word in capitals.
pub fn parse_guess(line: &[u8]) -> (r: Result<Word, InvalidInputError>)
    ensures
        r == Err::<Word, InvalidInputError>(InvalidInputError::InputLength) <==> (line@.len() != 6
            || line@[5] != 10),
        forall|c: u8|
            r == Err::<Word, InvalidInputError>(InvalidInputError::NonAscii(c)) <==> line@.len()
                == 6 && line@[5] == 10 && exists|k: int|
                is_first_non_ascii(line@.take(5), k) && line@[k] == c,
        r is Ok <==> line@.len() == 6 && line@[5] == 10 && is_word(line@.take(5)),
        r is Ok ==> r->Ok_0@ == upper_word(line@.take(5)),
{
    if line.len() != 6 || line[5] != 10 {
        return Err(InvalidInputError::InputLength);
    }
    let head = vstd::slice::slice_subrange(line, 0, 5);
    assert(head@ =~= line@.take(5));
    word_from_bytes(head)
}

} // verus!
