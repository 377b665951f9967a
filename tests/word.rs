use wordle::random::Rand;
use wordle::word::{parse_guess, word_from_bytes, InvalidInputError};

#[test]
fn word_from_bytes_raises_case() {
    assert_eq!(word_from_bytes(b"crAne"), Ok(*b"CRANE"));
    assert_eq!(word_from_bytes(b"a1-z~"), Ok(*b"A1-Z~"));
}

#[test]
fn word_from_bytes_rejects_length() {
    assert_eq!(word_from_bytes(b"four"), Err(InvalidInputError::InputLength));
    assert_eq!(word_from_bytes(b"sixsix"), Err(InvalidInputError::InputLength));
    assert_eq!(word_from_bytes(b""), Err(InvalidInputError::InputLength));
}

#[test]
fn word_from_bytes_names_first_non_ascii_byte() {
    assert_eq!(
        word_from_bytes(&[b'a', 0xc3, 0xa9, b'b', b'c']),
        Err(InvalidInputError::NonAscii(0xc3))
    );
}

#[test]
fn parse_guess_needs_a_full_line() {
    assert_eq!(parse_guess(b"crane\n"), Ok(*b"CRANE"));
    assert_eq!(parse_guess(b"cran\n"), Err(InvalidInputError::InputLength));
    assert_eq!(parse_guess(b"cranes"), Err(InvalidInputError::InputLength));
    assert_eq!(
        parse_guess(&[b'c', b'r', 0xff, b'n', b'e', b'\n']),
        Err(InvalidInputError::NonAscii(0xff))
    );
}

#[test]
fn xorshift_steps() {
    let mut r = Rand::new(1);
    assert_eq!(r.sample(), 270369);
    assert_eq!(r.sample(), 68787111425);
    let mut z = Rand::new(0);
    assert_eq!(z.sample(), 0);
}
