//! One game session: a secret word and the guesses made against it.

use vstd::prelude::*;

use crate::score::{LetterScore, Score, all_right};
use crate::scoring::{score, scored};
use crate::word::{Word, is_word};

verus! {

broadcast use crate::score::lemma_view_len;

/// The maximum number of turns a player is allowed to take.
pub const TURN_LIMIT: usize = 6;

/// A game session against one secret word.
pub struct Board {
    word: Word,
    /// The guess that the next call of [`Board::score`] submits.
    input: Word,
    guesses: [(Word, Score); TURN_LIMIT],
    turn: usize,
}

impl Board {
    /// The secret word.
    pub closed spec fn secret(&self) -> Seq<u8> {
        self.word@
    }

    /// The guess that the next submission scores.
    pub closed spec fn pending(&self) -> Seq<u8> {
        self.input@
    }

    /// The number of guesses taken so far.
    pub closed spec fn turns(&self) -> nat {
        self.turn as nat
    }

    /// The guesses taken so far with their verdicts, in turn order.
    pub closed spec fn history(&self) -> Seq<(Seq<u8>, Seq<LetterScore>)> {
        Seq::new(self.turn as nat, |k: int| (self.guesses@[k].0@, self.guesses@[k].1@))
    }

    /// The most recent guess was scored as a win.
    pub open spec fn won(&self) -> bool {
        self.turns() > 0 && self.history().last().1 == all_right()
    }

    /// No further guess may be submitted: the game is won or the turns are used up.
    pub open spec fn terminal(&self) -> bool {
        self.won() || self.turns() >= TURN_LIMIT
    }

    /// The session is consistent: each recorded verdict is the score of its guess against
    /// the secret, and no guess but the last one won.
    pub closed spec fn wf(&self) -> bool {
        &&& self.turn <= TURN_LIMIT
        &&& is_word(self.word@)
        &&& forall|k: int| 0 <= k < TURN_LIMIT ==> (#[trigger] self.guesses@[k]).1.wf()
        &&& forall|k: int|
            0 <= k < self.turn ==> (#[trigger] self.guesses@[k]).1@ == scored(
                self.word@,
                self.guesses@[k].0@,
            )
        &&& forall|k: int| 0 <= k < self.turn - 1 ==> (#[trigger] self.guesses@[k]).1@ != all_right()
    }

    /// A new session against `word`, with no guess taken.
    pub fn new(word: Word) -> (r: Board)
        requires
            is_word(word@),
        ensures
            r.wf(),
            r.secret() == word@,
            r.turns() == 0,
            r.history() == Seq::<(Seq<u8>, Seq<LetterScore>)>::empty(),
            r.pending() == seq![0u8, 0u8, 0u8, 0u8, 0u8],
            !r.terminal(),
    {
        let blank = Score::default();
        let r = Board { word, input: [0u8; 5], guesses: [([0u8; 5], blank); TURN_LIMIT], turn: 0 };
        assert(r.history() =~= Seq::<(Seq<u8>, Seq<LetterScore>)>::empty());
        assert(r.pending() =~= seq![0u8, 0u8, 0u8, 0u8, 0u8]);
        r
    }

    /// Scores the pending guess `input` against the secret, records it and returns the score.
    pub fn score(&mut self) -> (r: Score)
        requires
            old(self).wf(),
            !old(self).terminal(),
            is_word(old(self).pending()),
        ensures
            final(self).wf(),
            r.wf(),
            r@ == scored(old(self).secret(), old(self).pending()),
            final(self).secret() == old(self).secret(),
            final(self).pending() == old(self).pending(),
            final(self).turns() == old(self).turns() + 1,
            final(self).history() == old(self).history().push((old(self).pending(), r@)),
    {
        let ghost h = self.history();
        let s = score(&self.word, &self.input);
        self.guesses[self.turn] = (self.input, s);
        self.turn = self.turn + 1;
        assert(self.history() =~= h.push((self.input@, s@)));
        s
    }

    /// Makes `guess` the pending guess that the next call of [`Board::score`] submits.
    pub fn set_input(&mut self, guess: Word)
        ensures
            final(self).pending() == guess@,
            final(self).secret() == old(self).secret(),
            final(self).turns() == old(self).turns(),
            final(self).history() == old(self).history(),
            final(self).wf() == old(self).wf(),
    {
        self.input = guess;
    }

    /// The history holds one entry per turn taken, and no more than the turn limit.
    pub proof fn lemma_history_len(&self)
        requires
            self.wf(),
        ensures
            self.history().len() == self.turns(),
            self.turns() <= TURN_LIMIT,
            is_word(self.secret()),
    {
    }

    /// The number of guesses taken so far.
    pub fn turn(&self) -> (r: usize)
        ensures
            r == self.turns(),
    {
        self.turn
    }

    /// The secret word.
    pub fn word(&self) -> (r: Word)
        ensures
            r@ == self.secret(),
    {
        self.word
    }

    /// The guess taken on turn `k` (counted from 0) and its score.
    pub fn guess_at(&self, k: usize) -> (r: (Word, Score))
        requires
            self.wf(),
            k < self.turns(),
        ensures
            r.1.wf(),
            (r.0@, r.1@) == self.history()[k as int],
            r.1@ == scored(self.secret(), r.0@),
    {
        self.guesses[k]
    }

    /// Whether the most recent guess won.
    pub fn is_won(&self) -> (r: bool)
        requires
            self.wf(),
        ensures
            r == self.won(),
    {
        self.turn > 0 && self.guesses[self.turn - 1].1.is_win()
    }

    /// Whether the session is over: won, or out of turns.
    pub fn is_terminal(&self) -> (r: bool)
        requires
            self.wf(),
        ensures
            r == self.terminal(),
    {
        self.is_won() || self.turn >= TURN_LIMIT
    }
}

/// A submission that wins ends the session as a win, whatever the turn; one that does not
/// win ends it as a loss exactly when it uses up the last turn.
pub proof fn lemma_submission_outcome(before: Board, after: Board, guess: Seq<u8>, s: Seq<LetterScore>)
    requires
        before.wf(),
        after.wf(),
        !before.terminal(),
        after.turns() == before.turns() + 1,
        after.history() == before.history().push((guess, s)),
    ensures
        s == all_right() ==> after.terminal() && after.won(),
        s != all_right() && after.turns() == TURN_LIMIT ==> after.terminal() && !after.won(),
        s != all_right() && after.turns() < TURN_LIMIT ==> !after.terminal(),
{
}

/// A session whose turns are all used up by guesses that did not win is over, and lost.
pub proof fn lemma_out_of_turns(b: Board)
    requires
        b.wf(),
        b.turns() == TURN_LIMIT,
        forall|k: int| 0 <= k < b.turns() ==> (#[trigger] b.history()[k]).1 != all_right(),
    ensures
        b.terminal(),
        !b.won(),
{
    assert(b.history()[TURN_LIMIT - 1].1 != all_right());
}

} // verus!
