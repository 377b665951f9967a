use wordle::stats::{Stats, StatsParseError};

#[test]
fn test_deserialize() {
    let des = Stats::deserialize(&b"0 0 0 0 0 0 0\n"[..]).unwrap();
    assert_eq!(
        des,
        Stats {
            wins: [0; 6],
            losses: 0,
        }
    );

    let des = Stats::deserialize(&b"1 2 3 4 5 6 7\n"[..]).unwrap();
    assert_eq!(
        des,
        Stats {
            wins: [1, 2, 3, 4, 5, 6],
            losses: 7,
        }
    );

    let des = Stats::deserialize(format!("{0} {0} {0} {0} {0} {0} {0}\n", u32::MAX).as_bytes())
        .unwrap();
    assert_eq!(
        des,
        Stats {
            wins: [u32::MAX; 6],
            losses: u32::MAX,
        }
    );
}

#[test]
fn serialize_writes_counts_then_blank_line() {
    let s = Stats { wins: [1, 20, 300, 0, 5, 6], losses: 4000000000 };
    assert_eq!(s.serialize(), b"1 20 300 0 5 6 4000000000\n\n".to_vec());
}

#[test]
fn serialize_round_trips() {
    for s in [
        Stats { wins: [0; 6], losses: 0 },
        Stats { wins: [u32::MAX; 6], losses: u32::MAX },
        Stats { wins: [9, 10, 99, 100, 12345, 7], losses: 1 },
    ] {
        assert_eq!(Stats::deserialize(&s.serialize()), Ok(s));
    }
}

#[test]
fn deserialize_rejects_bad_lines() {
    let bad: [&[u8]; 9] = [
        b"",
        b"1 2 3 4 5 6 7",
        b"1 2 3 4 5 6\n",
        b"1 2 3 4 5 6 7 8\n",
        b"1 2 3 4 5 6 x\n",
        b"1  2 3 4 5 6 7\n",
        b"1 2 3 4 5 6 4294967296\n",
        b"1 2 3 4 5 6 7 \n",
        b"-1 2 3 4 5 6 7\n",
    ];
    for b in bad {
        assert_eq!(Stats::deserialize(b), Err(StatsParseError), "{:?}", b);
    }
}

#[test]
fn deserialize_reads_only_the_first_line() {
    let s = Stats::deserialize(b"007 2 3 4 5 6 7\r\n".as_slice());
    assert_eq!(s, Err(StatsParseError));
    let s = Stats::deserialize(b"007 2 3 4 5 6 7\nrest 1 2\n".as_slice()).unwrap();
    assert_eq!(s, Stats { wins: [7, 2, 3, 4, 5, 6], losses: 7 });
}

#[test]
fn deserialize_needs_newline_within_window() {
    let mut line = Vec::new();
    for _ in 0..6 {
        line.extend_from_slice(b"0000000000 ");
    }
    line.extend_from_slice(b"0000000001\n");
    assert_eq!(line.len(), 77);
    assert_eq!(
        Stats::deserialize(&line),
        Ok(Stats { wins: [0; 6], losses: 1 })
    );
    let mut longer = b"0".to_vec();
    longer.extend_from_slice(&line);
    assert_eq!(Stats::deserialize(&longer), Err(StatsParseError));
}

#[test]
fn record_win_and_loss() {
    let mut s = Stats { wins: [0; 6], losses: 0 };
    s.record_win(0);
    s.record_win(5);
    s.record_win(5);
    s.record_loss();
    assert_eq!(s, Stats { wins: [1, 0, 0, 0, 0, 2], losses: 1 });
    let mut full = Stats { wins: [u32::MAX; 6], losses: u32::MAX };
    full.record_win(2);
    full.record_loss();
    assert_eq!(full, Stats { wins: [u32::MAX; 6], losses: u32::MAX });
}
