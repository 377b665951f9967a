//! Scoring a guess against the secret word.

use vstd::prelude::*;

use crate::score::{LetterScore, Score, all_right};
use crate::word::{Word, is_word};

verus! {

broadcast use {vstd::array::group_array_axioms, crate::score::lemma_view_len};

/// 1 when `b` holds, else 0.
pub open spec fn one_if(b: bool) -> nat {
    if b {
        1
    } else {
        0
    }
}

/// Position `k` of the guess is not an exact match.
pub open spec fn unmatched_at(secret: Seq<u8>, guess: Seq<u8>, k: int) -> bool {
    guess[k] != secret[k]
}

/// How many letters `c` of the secret stand where the guess does not match:
/// those are the ones that misplaced letters of the guess may claim.
pub open spec fn available(secret: Seq<u8>, guess: Seq<u8>, c: u8) -> nat {
    one_if(secret[0] == c && unmatched_at(secret, guess, 0)) + one_if(
        secret[1] == c && unmatched_at(secret, guess, 1),
    ) + one_if(secret[2] == c && unmatched_at(secret, guess, 2)) + one_if(
        secret[3] == c && unmatched_at(secret, guess, 3),
    ) + one_if(secret[4] == c && unmatched_at(secret, guess, 4))
}

/// How many positions before `i` of the guess hold `c` without being an exact match.
pub open spec fn claimed_before(secret: Seq<u8>, guess: Seq<u8>, c: u8, i: int) -> nat {
    one_if(0 < i && guess[0] == c && unmatched_at(secret, guess, 0)) + one_if(
        1 < i && guess[1] == c && unmatched_at(secret, guess, 1),
    ) + one_if(2 < i && guess[2] == c && unmatched_at(secret, guess, 2)) + one_if(
        3 < i && guess[3] == c && unmatched_at(secret, guess, 3),
    ) + one_if(4 < i && guess[4] == c && unmatched_at(secret, guess, 4))
}

/// The verdict for position `i`: `Right` on an exact match; otherwise `InWord` while the
/// secret still has an unmatched copy of the letter that earlier positions of the guess
/// have not claimed; otherwise `Wrong`.
pub open spec fn letter_verdict(secret: Seq<u8>, guess: Seq<u8>, i: int) -> LetterScore {
    if guess[i] == secret[i] {
        LetterScore::Right
    } else if claimed_before(secret, guess, guess[i], i) < available(secret, guess, guess[i]) {
        LetterScore::InWord
    } else {
        LetterScore::Wrong
    }
}

/// The verdicts for all five positions of `guess` against `secret`.
pub open spec fn scored(secret: Seq<u8>, guess: Seq<u8>) -> Seq<LetterScore> {
    Seq::new(5, |i: int| letter_verdict(secret, guess, i))
}

/// How many bytes of a five-byte sequence equal `c`.
spec fn count5(s: Seq<u8>, c: u8) -> nat {
    one_if(s[0] == c) + one_if(s[1] == c) + one_if(s[2] == c) + one_if(s[3] == c) + one_if(
        s[4] == c,
    )
}

spec fn min(a: nat, b: nat) -> nat {
    if a < b {
        a
    } else {
        b
    }
}

/// A byte that no ASCII letter equals, written over a letter of the secret once used.
const SENTINEL: u8 = 255;

/// Counting claims up to position `i + 1` adds position `i` to those before it.
proof fn lemma_claimed_step(secret: Seq<u8>, guess: Seq<u8>, i: int)
    requires
        0 <= i < 5,
    ensures
        forall|c: u8|
            #[trigger] claimed_before(secret, guess, c, i + 1) == claimed_before(
                secret,
                guess,
                c,
                i,
            ) + one_if(guess[i] == c && unmatched_at(secret, guess, i)),
{
}

/// Overwrites the first copy of `c` in `work` with the sentinel, if there is one.
fn claim(work: &mut Word, c: u8) -> (found: bool)
    requires
        c != SENTINEL,
    ensures
        found == (count5(old(work)@, c) > 0),
        found ==> count5(final(work)@, c) + 1 == count5(old(work)@, c),
        !found ==> final(work)@ == old(work)@,
        forall|d: u8| d != c && d != SENTINEL ==> #[trigger] count5(final(work)@, d) == count5(old(work)@, d),
        forall|k: int| 0 <= k < 5 ==> #[trigger] final(work)@[k] == old(work)@[k] || final(work)@[k] == SENTINEL,
{
    let mut j: usize = 0;
    while j < 5
        invariant
            j <= 5,
            *work == *old(work),
            c != SENTINEL,
            forall|k: int| 0 <= k < j ==> work@[k] != c,
        decreases 5 - j,
    {
        if work[j] == c {
            work[j] = SENTINEL;
            return true;
        }
        j = j + 1;
    }
    false
}

/// Byte-wise equality of two words.
fn same_word(a: &Word, b: &Word) -> (r: bool)
    ensures
        r == (a@ == b@),
{
    let mut i: usize = 0;
    while i < 5
        invariant
            i <= 5,
            forall|k: int| 0 <= k < i ==> a@[k] == b@[k],
        decreases 5 - i,
    {
        if a[i] != b[i] {
            return false;
        }
        i = i + 1;
    }
    assert(a@ =~= b@);
    true
}

/// Scores `guess` against the secret `word`.
pub fn score(word: &Word, guess: &Word) -> (r: Score)
    requires
        is_word(word@),
        is_word(guess@),
    ensures
        r.wf(),
        r@ == scored(word@, guess@),
{
    let ghost s = word@;
    let ghost g = guess@;
    if same_word(word, guess) {
        let r = Score::perfect();
        assert(r@ =~= scored(s, g));
        return r;
    }
    let mut result = Score::default();
    let mut work: Word = *word;

    // exact positions first
    let mut i: usize = 0;
    while i < 5
        invariant
            i <= 5,
            s == word@,
            g == guess@,
            s.len() == 5,
            g.len() == 5,
            result.wf(),
            forall|k: int|
                0 <= k < 5 ==> #[trigger] result@[k] == (if k < i && g[k] == s[k] {
                    LetterScore::Right
                } else {
                    LetterScore::Wrong
                }),
            forall|k: int|
                0 <= k < 5 ==> #[trigger] work@[k] == (if k < i && g[k] == s[k] {
                    SENTINEL
                } else {
                    s[k]
                }),
        decreases 5 - i,
    {
        if work[i] == guess[i] {
            result.set(i, LetterScore::Right);
            work[i] = SENTINEL;
        }
        i = i + 1;
    }

    // then misplaced letters, left to right
    let mut i: usize = 0;
    while i < 5
        invariant
            i <= 5,
            s == word@,
            g == guess@,
            is_word(s),
            is_word(g),
            result.wf(),
            forall|k: int|
                0 <= k < 5 ==> #[trigger] result@[k] == (if k < i {
                    letter_verdict(s, g, k)
                } else if g[k] == s[k] {
                    LetterScore::Right
                } else {
                    LetterScore::Wrong
                }),
            forall|k: int| 0 <= k < 5 ==> #[trigger] work@[k] == SENTINEL || work@[k] == s[k],
            forall|k: int| 0 <= k < 5 && g[k] == s[k] ==> #[trigger] work@[k] == SENTINEL,
            forall|c: u8|
                c < 128 ==> #[trigger] count5(work@, c) == available(s, g, c) - min(
                    claimed_before(s, g, c, i as int),
                    available(s, g, c),
                ),
        decreases 5 - i,
    {
        proof {
            lemma_claimed_step(s, g, i as int);
        }
        if guess[i] != word[i] {
            let c = guess[i];
            if claim(&mut work, c) {
                result.set(i, LetterScore::InWord);
            }
        }
        i = i + 1;
    }
    assert(result@ =~= scored(s, g));
    result
}

/// A word scored against itself is the winning score.
pub proof fn lemma_score_self(w: Seq<u8>)
    requires
        is_word(w),
    ensures
        scored(w, w) == all_right(),
{
    assert(scored(w, w) =~= all_right());
}

} // verus!
