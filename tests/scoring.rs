use wordle::score::LetterScore::{self, InWord, Right, Wrong};
use wordle::score::Score;
use wordle::scoring::score;

#[test]
fn test_score() {

    let table = [
        (b"words", b"birds", Score::encode(&[Wrong, Wrong, Right, Right, Right])),
        (b"tests", b"stabs", Score::encode(&[InWord, InWord, Wrong, Wrong, Right])),
        (b"cargo", b"gocar", Score::encode(&[InWord; 5])),
        (b"cargo", b"cargo", Score::encode(&[Right; 5])),
        (b"stark", b"lossy", Score::encode(&[Wrong, Wrong, InWord, Wrong, Wrong])),
        (b"liege", b"liens", Score::encode(&[Right, Right, Right, Wrong, Wrong])),
        (b"liege", b"litre", Score::encode(&[Right, Right, Wrong, Wrong, Right])),
        (b"abcde", b"edcba", Score::encode(&[InWord, InWord, Right, InWord, InWord])),
        (b"abcde", b"ccccc", Score::encode(&[Wrong, Wrong, Right, Wrong, Wrong])),
        (b"abcde", b"ccxxx", Score::encode(&[InWord, Wrong, Wrong, Wrong, Wrong])),
    ];

    for (w, g, expected) in table {
        let got = score(w, g);
        assert_eq!(got, expected);
        assert_eq!(got, Score::encode(&got.decode()));
    }
}

#[test]
fn repeated_letters_all_misplaced() {
    let got = score(b"CARGO", b"GOCAR");
    assert_eq!(got.decode(), [LetterScore::InWord; 5]);
}

#[test]
fn exact_matches_at_the_end() {

    let got = score(b"WORDS", b"BIRDS");
    assert_eq!(got.decode(), [Wrong, Wrong, Right, Right, Right]);
}

#[test]
fn repeated_guess_letter_credited_once() {

    let got = score(b"ABCDE", b"CCXXX");
    assert_eq!(got.decode(), [InWord, Wrong, Wrong, Wrong, Wrong]);
}

#[test]
fn exact_match_does_not_steal_from_later_copy() {

    // the second E of the guess is exact; the first E finds no unmatched E left
    let got = score(b"ABCDE", b"EXXXE");
    assert_eq!(got.decode(), [Wrong, Wrong, Wrong, Wrong, Right]);
}

#[test]
fn word_scored_against_itself_wins() {
    for w in [b"CRANE", b"AAAAA", b"ZZZZZ", b"abcde"] {
        let s = score(w, w);
        assert!(s.is_win());
        assert_eq!(s, Score::perfect());
        assert_eq!(s.packed(), 242);
    }
}

#[test]
fn encode_then_decode_every_score() {

    let all = [Wrong, InWord, Right];
    let mut seen = std::collections::HashSet::new();
    for a in all {
        for b in all {
            for c in all {
                for d in all {
                    for e in all {
                        let s = [a, b, c, d, e];
                        let packed = Score::encode(&s);
                        assert_eq!(packed.decode(), s);
                        assert!(packed.packed() < 243);
                        seen.insert(packed.packed());
                        let win = s.iter().all(|l| *l == Right);
                        assert_eq!(packed.is_win(), win);
                    }
                }
            }
        }
    }
    assert_eq!(seen.len(), 243);
}

#[test]
fn encode_weights_positions_by_powers_of_three() {

    assert_eq!(Score::encode(&[InWord, Wrong, Wrong, Wrong, Wrong]).packed(), 1);
    assert_eq!(Score::encode(&[Wrong, Right, Wrong, Wrong, Wrong]).packed(), 6);
    assert_eq!(Score::encode(&[Wrong, Wrong, Wrong, Wrong, InWord]).packed(), 81);
    assert_eq!(Score::encode(&[Right; 5]).packed(), 242);
    assert_eq!(Score::default().packed(), 0);
}

#[test]
fn set_and_get_positions() {

    let mut s = Score::default();
    s.set(3, Right);
    s.set(0, InWord);
    assert_eq!(s.get(0), InWord);
    assert_eq!(s.get(1), Wrong);
    assert_eq!(s.get(3), Right);
    assert_eq!(s.packed(), 1 + 2 * 27);
    assert!(!s.is_win());
}

#[test]
fn letter_score_ordinals_and_colors() {
    assert_eq!(LetterScore::Wrong.variant(), 0);
    assert_eq!(LetterScore::InWord.variant(), 1);
    assert_eq!(LetterScore::Right.variant(), 2);
    assert_eq!(LetterScore::Wrong.bg_color(), 100);
    assert_eq!(LetterScore::InWord.bg_color(), 43);
    assert_eq!(LetterScore::Right.bg_color(), 42);
}
