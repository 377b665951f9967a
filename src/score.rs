//! Per-letter verdicts and their packed one-byte form.

use vstd::prelude::*;

verus! {

/// The verdict for one letter of a guess.
#[derive(Clone, Copy, Debug, PartialEq, Eq, Structural)]
pub enum LetterScore {
    /// A letter that is not in the word at all.
    Wrong,
    /// A letter that is in the word but at a different spot.
    InWord,
    /// A letter both in the word and at the right spot.
    Right,
}

/// The ordinal of a verdict, its base-3 digit in the packed form.
pub open spec fn ordinal(l: LetterScore) -> nat {
    match l {
        LetterScore::Wrong => 0,
        LetterScore::InWord => 1,
        LetterScore::Right => 2,
    }
}

/// The verdict whose ordinal is `d` (taken modulo 3).
pub open spec fn from_ordinal(d: int) -> LetterScore {
    if d % 3 == 0 {
        LetterScore::Wrong
    } else if d % 3 == 1 {
        LetterScore::InWord
    } else {
        LetterScore::Right
    }
}

/// The powers of three that weigh the five positions.
pub open spec fn pow3(i: int) -> nat {
    if i <= 0 {
        1
    } else if i == 1 {
        3
    } else if i == 2 {
        9
    } else if i == 3 {
        27
    } else {
        81
    }
}

/// The packed value of five verdicts: position `i` is the base-3 digit of weight `3^i`.
pub open spec fn packed_of(s: Seq<LetterScore>) -> nat {
    ordinal(s[0]) + 3 * ordinal(s[1]) + 9 * ordinal(s[2]) + 27 * ordinal(s[3]) + 81 * ordinal(
        s[4],
    )
}

/// The verdict that a packed value holds at position `i`.
pub open spec fn digit_of(p: int, i: int) -> LetterScore {
    from_ordinal((p / (pow3(i) as int)) % 3)
}

/// The five verdicts that a packed value holds.
pub open spec fn unpacked(p: int) -> Seq<LetterScore> {
    Seq::new(5, |i: int| digit_of(p, i))
}

/// Five verdicts, all `Right`.
pub open spec fn all_right() -> Seq<LetterScore> {
    Seq::new(5, |i: int| LetterScore::Right)
}

/// The packed value of a winning score.
pub const PERFECT_PACKED: u8 = 242;

impl LetterScore {
    /// The ordinal of this verdict.
    pub fn variant(self) -> (r: u8)
        ensures
            r == ordinal(self),
    {
        match self {
            LetterScore::Wrong => 0,
            LetterScore::InWord => 1,
            LetterScore::Right => 2,
        }
    }

    /// The background colour code (an ANSI SGR parameter) this verdict is shown with.
    pub fn bg_color(self) -> (r: u8)
        ensures
            self == LetterScore::Wrong ==> r == 100,
            self == LetterScore::InWord ==> r == 43,
            self == LetterScore::Right ==> r == 42,
    {
        match self {
            LetterScore::Wrong => 100,
            LetterScore::InWord => 43,
            LetterScore::Right => 42,
        }
    }
}

/// The verdicts for all five letters of a guess, packed into one byte.
#[derive(Clone, Copy, Debug, PartialEq, Eq, Structural)]
pub struct Score(u8);

proof fn lemma_digits(a0: u8, a1: u8, a2: u8, a3: u8, a4: u8)
    requires
        a0 < 3,
        a1 < 3,
        a2 < 3,
        a3 < 3,
        a4 < 3,
    ensures
        ({
            let p = a0 + 3 * a1 + 9 * a2 + 27 * a3 + 81 * a4;
            &&& p < 243
            &&& p % 3 == a0
            &&& (p / 3) % 3 == a1
            &&& (p / 9) % 3 == a2
            &&& (p / 27) % 3 == a3
            &&& (p / 81) % 3 == a4
        }),
{
    assert({
        let p = a0 + 3 * a1 + 9 * a2 + 27 * a3 + 81 * a4;
        &&& p < 243
        &&& p % 3 == a0
        &&& (p / 3) % 3 == a1
        &&& (p / 9) % 3 == a2
        &&& (p / 27) % 3 == a3
        &&& (p / 81) % 3 == a4
    }) by (bit_vector)
        requires
            a0 < 3,
            a1 < 3,
            a2 < 3,
            a3 < 3,
            a4 < 3,
    ;
}

/// Decoding the packed form of five verdicts gives them back.
pub proof fn lemma_round_trip(s: Seq<LetterScore>)
    requires
        s.len() == 5,
    ensures
        packed_of(s) < 243,
        unpacked(packed_of(s) as int) == s,
{
    lemma_digits(
        ordinal(s[0]) as u8,
        ordinal(s[1]) as u8,
        ordinal(s[2]) as u8,
        ordinal(s[3]) as u8,
        ordinal(s[4]) as u8,
    );
    assert(unpacked(packed_of(s) as int) =~= s);
}


proof fn lemma_decompose(p: u8)
    requires
        p < 243,
    ensures
        p == p % 3 + 3 * ((p / 3) % 3) + 9 * ((p / 9) % 3) + 27 * ((p / 27) % 3) + 81 * ((p / 81)
            % 3),
        (p / 81) % 3 == p / 81,
{
    assert(p == p % 3 + 3 * ((p / 3) % 3) + 9 * ((p / 9) % 3) + 27 * ((p / 27) % 3) + 81 * ((p
        / 81) % 3) && (p / 81) % 3 == p / 81) by (bit_vector)
        requires
            p < 243,
    ;
}

/// Every packed value below 243 is the packed form of the verdicts it holds.
proof fn lemma_packed_unpacked(p: u8)
    requires
        p < 243,
    ensures
        packed_of(unpacked(p as int)) == p,
{
    lemma_decompose(p);
}

impl View for Score {
    type V = Seq<LetterScore>;

    /// The five verdicts, position 0 first.
    closed spec fn view(&self) -> Seq<LetterScore> {
        unpacked(self.0 as int)
    }
}

/// A score always holds five verdicts.
pub broadcast proof fn lemma_view_len(s: Score)
    ensures
        #[trigger] s@.len() == 5,
{
}

/// A well-formed score's packed byte is the base-3 number of its verdicts, position 0 the
/// least significant digit.
pub broadcast proof fn lemma_packed_value(s: Score)
    requires
        s.wf(),
    ensures
        #[trigger] s.packed_value() == packed_of(s@),
{
    lemma_packed_unpacked(s.0);
}

/// Every packed byte below 243 is the packed form of exactly one well-formed score.
pub proof fn lemma_packed_bytes(p: u8)
    requires
        p < 243,
    ensures
        packed_of(unpacked(p as int)) == p,
        unpacked(p as int).len() == 5,
{
    lemma_packed_unpacked(p);
}

/// The weight `3^at` of position `at`.
fn weight(at: usize) -> (r: u8)
    requires
        at < 5,
    ensures
        r == pow3(at as int),
{
    match at {
        0 => 1,
        1 => 3,
        2 => 9,
        3 => 27,
        _ => 81,
    }
}

impl Score {
    /// The packed byte is a valid base-3 number of five digits.
    pub closed spec fn wf(self) -> bool {
        self.0 < 243
    }

    /// The packed byte, as a number.
    pub closed spec fn packed_value(self) -> nat {
        self.0 as nat
    }

    /// The packed byte.
    pub fn packed(self) -> (r: u8)
        ensures
            r == self.packed_value(),
    {
        self.0
    }

    /// The winning score: every position `Right`.
    pub fn perfect() -> (r: Score)
        ensures
            r.wf(),
            r@ == all_right(),
            r.packed_value() == PERFECT_PACKED,
    {
        let r = Score(PERFECT_PACKED);
        assert(r@ =~= all_right());
        r
    }

    /// Packs five verdicts into one byte: position `i` is the base-3 digit of weight `3^i`.
    pub fn encode(s: &[LetterScore; 5]) -> (r: Score)
        ensures
            r.wf(),
            r@ == s@,
            r.packed_value() == packed_of(s@),
    {
        let p: u8 = s[0].variant() + 3 * s[1].variant() + 9 * s[2].variant() + 27 * s[3].variant()
            + 81 * s[4].variant();
        proof {
            lemma_round_trip(s@);
        }
        Score(p)
    }

    /// Unpacks the five verdicts.
    pub fn decode(self) -> (r: [LetterScore; 5])
        requires
            self.wf(),
        ensures
            r@ == self@,
    {
        let r = [self.get(0), self.get(1), self.get(2), self.get(3), self.get(4)];
        assert(r@ =~= self@);
        r
    }

    /// Whether every position is `Right`, read off the packed byte.
    pub fn is_win(self) -> (r: bool)
        requires
            self.wf(),
        ensures
            r == (self@ == all_right()),
            r == (forall|i: int| 0 <= i < 5 ==> #[trigger] self@[i] == LetterScore::Right),
            r == (self.packed_value() == PERFECT_PACKED),
    {
        proof {
            lemma_packed_unpacked(self.0);
            if self@ == all_right() {
                assert(self@[0] == LetterScore::Right);
            }
            if forall|i: int| 0 <= i < 5 ==> #[trigger] self@[i] == LetterScore::Right {
                assert(self@ =~= all_right());
            }
            if self.0 == PERFECT_PACKED {
                lemma_round_trip(all_right());
                assert(unpacked(PERFECT_PACKED as int) =~= all_right());
            }
        }
        self.0 == PERFECT_PACKED
    }

    /// Records `score` at position `at`, which must still read `Wrong`.
    pub fn set(&mut self, at: usize, score: LetterScore)
        requires
            old(self).wf(),
            at < 5,
            old(self)@[at as int] == LetterScore::Wrong,
        ensures
            final(self).wf(),
            final(self)@ == old(self)@.update(at as int, score),
            final(self).packed_value() == old(self).packed_value() + ordinal(score) * pow3(at as int),
    {
        let ghost s = self@;
        let ghost t = s.update(at as int, score);
        proof {
            lemma_packed_unpacked(self.0);
            lemma_round_trip(t);
            assert(packed_of(s) == self.0);
            assert(ordinal(s[at as int]) == 0);
            if at == 0 {
                assert(packed_of(t) == packed_of(s) + ordinal(score));
            } else if at == 1 {
                assert(packed_of(t) == packed_of(s) + 3 * ordinal(score));
            } else if at == 2 {
                assert(packed_of(t) == packed_of(s) + 9 * ordinal(score));
            } else if at == 3 {
                assert(packed_of(t) == packed_of(s) + 27 * ordinal(score));
            } else {
                assert(packed_of(t) == packed_of(s) + 81 * ordinal(score));
            }
        }
        let pos = weight(at);
        let v = score.variant();
        assert(v * pos <= 162) by (nonlinear_arith)
            requires
                v <= 2,
                pos <= 81,
        ;
        let add = v * pos;
        assert(self.0 + add == packed_of(t));
        self.0 = self.0 + add;
        proof {
            assert(packed_of(t) == packed_of(s) + ordinal(score) * pow3(at as int));
        }
    }

    /// The verdict at position `at`.
    pub fn get(self, at: usize) -> (r: LetterScore)
        requires
            self.wf(),
            at < 5,
        ensures
            r == self@[at as int],
    {
        let pos = weight(at);
        match (self.0 / pos) % 3 {
            0 => LetterScore::Wrong,
            1 => LetterScore::InWord,
            _ => LetterScore::Right,
        }
    }
}

impl Default for Score {
    /// The score with every position `Wrong`.
    fn default() -> (r: Score)
        ensures
            r.wf(),
            r@ == Seq::new(5, |i: int| LetterScore::Wrong),
            r.packed_value() == 0,
    {
        let r = Score(0);
        assert(r@ =~= Seq::new(5, |i: int| LetterScore::Wrong));
        r
    }
}

} // verus!
