//! Win/loss statistics and their one-line text form.

use vstd::prelude::*;

verus! {

/// How far into its input [`Stats::deserialize`] looks for the end of the line: seven fields
/// of at most ten digits, each followed by one separator.
pub const STATS_WINDOW: usize = 77;

/// Wins counted by the turn on which they came (index 0: won on the first turn), and losses.
#[derive(Clone, Copy, Debug, PartialEq, Eq)]
pub struct Stats {
    pub wins: [u32; 6],
    pub losses: u32,
}

/// The stats line was malformed or truncated.
#[derive(Clone, Copy, Debug, PartialEq, Eq, Structural)]
pub struct StatsParseError;

/// `b` is an ASCII decimal digit.
pub open spec fn is_digit(b: u8) -> bool {
    48 <= b <= 57
}

/// The number that a string of decimal digits spells, most significant digit first.
pub open spec fn decimal_value(s: Seq<u8>) -> nat
    decreases s.len(),
{
    if s.len() == 0 {
        0
    } else {
        decimal_value(s.drop_last()) * 10 + (s.last() - 48) as nat
    }
}

/// `s` is a non-empty string of decimal digits whose value fits in a `u32`.
pub open spec fn is_decimal_u32(s: Seq<u8>) -> bool {
    &&& s.len() > 0
    &&& forall|i: int| 0 <= i < s.len() ==> is_digit(#[trigger] s[i])
    &&& decimal_value(s) <= u32::MAX
}

/// The shortest decimal spelling of `n`.
pub open spec fn decimal_digits(n: nat) -> Seq<u8>
    decreases n,
{
    if n < 10 {
        seq![(48 + n) as u8]
    } else {
        decimal_digits(n / 10).push((48 + n % 10) as u8)
    }
}

/// The pieces of `s` between single spaces (an empty `s` is one empty piece).
pub open spec fn fields(s: Seq<u8>) -> Seq<Seq<u8>>
    decreases s.len(),
{
    if s.len() == 0 {
        seq![Seq::empty()]
    } else if s.last() == 32 {
        fields(s.drop_last()).push(Seq::empty())
    } else {
        let f = fields(s.drop_last());
        f.update(f.len() - 1, f.last().push(s.last()))
    }
}

/// `p` is the position of the first newline of `b`, and it lies within the window.
pub open spec fn is_line_end(b: Seq<u8>, p: int) -> bool {
    &&& 0 <= p < b.len()
    &&& p < STATS_WINDOW
    &&& b[p] == 10
    &&& forall|q: int| 0 <= q < p ==> b[q] != 10
}

/// `b` has a newline within the window.
pub open spec fn has_line(b: Seq<u8>) -> bool {
    exists|p: int| is_line_end(b, p)
}

/// The bytes of `b` before its first newline.
pub open spec fn line_of(b: Seq<u8>) -> Seq<u8> {
    b.take(choose|p: int| is_line_end(b, p))
}

/// `b` starts with a line of exactly seven space-separated decimal `u32` fields.
pub open spec fn parses(b: Seq<u8>) -> bool {
    &&& has_line(b)
    &&& fields(line_of(b)).len() == 7
    &&& forall|i: int| 0 <= i < 7 ==> is_decimal_u32(#[trigger] fields(line_of(b))[i])
}

/// The value of field `i` of the first line of `b`.
pub open spec fn field_value(b: Seq<u8>, i: int) -> nat {
    decimal_value(fields(line_of(b))[i])
}

/// The seven counts, space-separated: the six win counts, then the losses.
pub open spec fn stats_line(wins: Seq<u32>, losses: u32) -> Seq<u8> {
    decimal_digits(wins[0] as nat) + seq![32u8] + decimal_digits(wins[1] as nat) + seq![32u8]
        + decimal_digits(wins[2] as nat) + seq![32u8] + decimal_digits(wins[3] as nat) + seq![32u8]
        + decimal_digits(wins[4] as nat) + seq![32u8] + decimal_digits(wins[5] as nat) + seq![32u8]
        + decimal_digits(losses as nat)
}

/// The serialized form: the stats line, a newline, and a blank line.
pub open spec fn stats_text(wins: Seq<u32>, losses: u32) -> Seq<u8> {
    stats_line(wins, losses) + seq![10u8, 10u8]
}

/// Appends the decimal spelling of `n`.
fn push_decimal(out: &mut Vec<u8>, n: u32)
    ensures
        final(out)@ == old(out)@ + decimal_digits(n as nat),
    decreases n,
{
    if n >= 10 {
        push_decimal(out, n / 10);
    }
    out.push(48u8 + (n % 10) as u8);
    assert(decimal_digits(n as nat) == if n < 10 {
        seq![(48 + n) as u8]
    } else {
        decimal_digits((n / 10) as nat).push((48 + n % 10) as u8)
    });
}


/// A prefix of a digit string spells no more than the whole.
proof fn lemma_value_prefix(s: Seq<u8>, j: int)
    requires
        0 <= j <= s.len(),
        forall|i: int| 0 <= i < s.len() ==> is_digit(#[trigger] s[i]),
    ensures
        decimal_value(s.take(j)) <= decimal_value(s),
    decreases s.len(),
{
    if j == s.len() {
        assert(s.take(j) =~= s);
    } else {
        let t = s.drop_last();
        assert(s.take(j) =~= t.take(j));
        assert forall|i: int| 0 <= i < t.len() implies is_digit(#[trigger] t[i]) by {
            assert(t[i] == s[i]);
        }
        lemma_value_prefix(t, j);
    }
}

/// Reads the decimal `u32` spelled by `buf[start..end]`.
fn parse_field(buf: &[u8], start: usize, end: usize) -> (r: Option<u32>)
    requires
        start <= end <= buf@.len(),
    ensures
        r is Some <==> is_decimal_u32(buf@.subrange(start as int, end as int)),
        r is Some ==> r->0 == decimal_value(buf@.subrange(start as int, end as int)),
{
    let ghost whole = buf@.subrange(start as int, end as int);
    if start == end {
        return None;
    }
    let mut acc: u32 = 0;
    let mut i: usize = start;
    while i < end
        invariant
            start <= i <= end <= buf@.len(),
            whole == buf@.subrange(start as int, end as int),
            forall|k: int| start <= k < i ==> is_digit(#[trigger] buf@[k]),
            acc == decimal_value(buf@.subrange(start as int, i as int)),
        decreases end - i,
    {
        let ghost next = buf@.subrange(start as int, i + 1);
        assert(next.drop_last() =~= buf@.subrange(start as int, i as int));
        let b = buf[i];
        if b < 48 || b > 57 {
            assert(!is_digit(whole[i - start]));
            return None;
        }
        let d = (b - 48) as u32;
        let grown = match acc.checked_mul(10) {
            Some(m) => m.checked_add(d),
            None => None,
        };
        match grown {
            Some(v) => {
                acc = v;
            },
            None => {
                proof {
                    if forall|k: int| 0 <= k < whole.len() ==> is_digit(#[trigger] whole[k]) {
                        assert(whole.take(i + 1 - start) =~= next);
                        lemma_value_prefix(whole, i + 1 - start);
                    }
                }
                return None;
            },
        }
        i = i + 1;
    }
    assert(buf@.subrange(start as int, i as int) =~= whole);
    Some(acc)
}

/// The bounds of the space-separated fields of `buf[..end]`.
fn split_fields(buf: &[u8], end: usize) -> (r: Vec<(usize, usize)>)
    requires
        end <= buf@.len(),
    ensures
        r@.len() == fields(buf@.take(end as int)).len(),
        forall|k: int|
            0 <= k < r@.len() ==> (#[trigger] r@[k]).0 <= r@[k].1 <= end && buf@.subrange(
                r@[k].0 as int,
                r@[k].1 as int,
            ) == fields(buf@.take(end as int))[k],
{
    let mut r: Vec<(usize, usize)> = Vec::new();
    let mut start: usize = 0;
    let mut i: usize = 0;
    assert(buf@.take(0) =~= Seq::<u8>::empty());
    assert(buf@.subrange(0, 0) =~= Seq::<u8>::empty());
    while i < end
        invariant
            i <= end <= buf@.len(),
            start <= i,
            r@.len() + 1 == fields(buf@.take(i as int)).len(),
            buf@.subrange(start as int, i as int) == fields(buf@.take(i as int)).last(),
            forall|k: int|
                0 <= k < r@.len() ==> (#[trigger] r@[k]).0 <= r@[k].1 <= i && buf@.subrange(
                    r@[k].0 as int,
                    r@[k].1 as int,
                ) == fields(buf@.take(i as int))[k],
        decreases end - i,
    {
        let ghost f = fields(buf@.take(i as int));
        assert(buf@.take(i + 1).drop_last() =~= buf@.take(i as int));
        if buf[i] == 32 {
            r.push((start, i));
            start = i + 1;
            assert(buf@.subrange(start as int, i + 1) =~= Seq::<u8>::empty());
        } else {
            assert(buf@.subrange(start as int, i + 1) =~= buf@.subrange(start as int, i as int).push(
                buf@[i as int],
            ));
        }
        i = i + 1;
    }
    r.push((start, end));
    r
}

impl Stats {
    /// Counts a win on turn `round` (counted from 0); the count stops at `u32::MAX`.
    pub fn record_win(&mut self, round: usize)
        requires
            round < 6,
        ensures
            final(self).wins@ == old(self).wins@.update(
                round as int,
                if old(self).wins@[round as int] < u32::MAX {
                    (old(self).wins@[round as int] + 1) as u32
                } else {
                    u32::MAX
                },
            ),
            final(self).losses == old(self).losses,
    {
        let w = self.wins[round];
        self.wins[round] = w.saturating_add(1);
    }

    /// Counts a loss; the count stops at `u32::MAX`.
    pub fn record_loss(&mut self)
        ensures
            final(self).wins == old(self).wins,
            final(self).losses == if old(self).losses < u32::MAX {
                (old(self).losses + 1) as u32
            } else {
                u32::MAX
            },
    {
        self.losses = self.losses.saturating_add(1);
    }

    /// The text form: the six win counts and the losses in decimal, space-separated,
    /// then a newline and a blank line.
    pub fn serialize(&self) -> (r: Vec<u8>)
        ensures
            r@ == stats_text(self.wins@, self.losses),
    {
        let mut out: Vec<u8> = Vec::new();
        push_decimal(&mut out, self.wins[0]);
        out.push(32);
        push_decimal(&mut out, self.wins[1]);
        out.push(32);
        push_decimal(&mut out, self.wins[2]);
        out.push(32);
        push_decimal(&mut out, self.wins[3]);
        out.push(32);
        push_decimal(&mut out, self.wins[4]);
        out.push(32);
        push_decimal(&mut out, self.wins[5]);
        out.push(32);
        push_decimal(&mut out, self.losses);
        out.push(10);
        out.push(10);
        assert(out@ =~= stats_text(self.wins@, self.losses));
        out
    }

    /// Reads stats from the first line of `buf`, which must end within
    /// [`STATS_WINDOW`] bytes and hold exactly seven space-separated decimal `u32` fields:
    /// six win counts, then the losses.
    pub fn deserialize(buf: &[u8]) -> (r: Result<Stats, StatsParseError>)
        ensures
            r is Ok <==> parses(buf@),
            r is Ok ==> (forall|i: int| 0 <= i < 6 ==> r->Ok_0.wins@[i] == field_value(buf@, i))
                && r->Ok_0.losses == field_value(buf@, 6),
    {
        let limit: usize = if buf.len() < STATS_WINDOW {
            buf.len()
        } else {
            STATS_WINDOW
        };
        let mut p: usize = 0;
        while p < limit && buf[p] != 10
            invariant
                p <= limit <= buf@.len(),
                limit <= STATS_WINDOW,
                forall|q: int| 0 <= q < p ==> buf@[q] != 10,
            decreases limit - p,
        {
            p = p + 1;
        }
        if p == limit {
            assert(!has_line(buf@)) by {
                if has_line(buf@) {
                    let q = choose|q: int| is_line_end(buf@, q);
                    assert(buf@[q] == 10);
                }
            }
            return Err(StatsParseError);
        }
        proof {
            assert(is_line_end(buf@, p as int));
            let q = choose|q: int| is_line_end(buf@, q);
            if q < p {
                assert(buf@[q] == 10);
            } else if q > p {
                assert(buf@[p as int] == 10);
            }
            assert(q == p);
        }
        let ghost line = buf@.take(p as int);
        assert(line == line_of(buf@));
        let bounds = split_fields(buf, p);
        if bounds.len() != 7 {
            return Err(StatsParseError);
        }
        let mut wins: [u32; 6] = [0u32; 6];
        let mut k: usize = 0;
        while k < 6
            invariant
                k <= 6,
                line == line_of(buf@),
                has_line(buf@),
                bounds@.len() == 7,
                fields(line).len() == 7,
                p <= buf@.len(),
                line == buf@.take(p as int),
                forall|j: int|
                    0 <= j < bounds@.len() ==> (#[trigger] bounds@[j]).0 <= bounds@[j].1 <= p
                        && buf@.subrange(bounds@[j].0 as int, bounds@[j].1 as int) == fields(line)[j],
                forall|j: int|
                    0 <= j < k ==> is_decimal_u32(#[trigger] fields(line)[j]) && wins@[j]
                        == decimal_value(fields(line)[j]),
            decreases 6 - k,
        {
            let (a, b) = bounds[k];
            match parse_field(buf, a, b) {
                Some(v) => {
                    wins[k] = v;
                },
                None => {
                    return Err(StatsParseError);
                },
            }
            k = k + 1;
        }
        let (a, b) = bounds[6];
        match parse_field(buf, a, b) {
            Some(losses) => {
                assert forall|i: int| 0 <= i < 7 implies is_decimal_u32(
                    #[trigger] fields(line_of(buf@))[i],
                ) by {}
                Ok(Stats { wins, losses })
            },
            None => Err(StatsParseError),
        }
    }
}


/// Ten to the power `k`.
spec fn pow10(k: nat) -> nat
    decreases k,
{
    if k == 0 {
        1
    } else {
        10 * pow10((k - 1) as nat)
    }
}

/// The decimal spelling of `n` is a non-empty digit string that spells `n`, no longer than
/// any `k` with `n < 10^k`.
proof fn lemma_decimal_digits(n: nat, k: nat)
    requires
        k >= 1,
        n < pow10(k),
    ensures
        decimal_digits(n).len() >= 1,
        decimal_digits(n).len() <= k,
        forall|i: int| 0 <= i < decimal_digits(n).len() ==> is_digit(#[trigger] decimal_digits(n)[i]),
        decimal_value(decimal_digits(n)) == n,
    decreases n,
{
    let d = decimal_digits(n);
    if n < 10 {
        assert(d.drop_last() =~= Seq::<u8>::empty());
        assert(decimal_value(d) == decimal_value(d.drop_last()) * 10 + (d.last() - 48) as nat);
    } else {
        let k1 = (k - 1) as nat;
        if k == 1 {
            assert(pow10(1) == 10) by {
                reveal_with_fuel(pow10, 2);
            }
        }
        assert(pow10(k) == 10 * pow10(k1));
        assert(n / 10 < pow10(k1)) by (nonlinear_arith)
            requires
                n < 10 * pow10(k1),
        ;
        lemma_decimal_digits(n / 10, k1);
        assert(d.drop_last() =~= decimal_digits(n / 10));
        assert(d.last() == (48 + n % 10) as u8);
        assert(n == (n / 10) * 10 + n % 10);
        assert(decimal_value(d) == decimal_value(d.drop_last()) * 10 + (d.last() - 48) as nat);
        assert forall|i: int| 0 <= i < d.len() implies is_digit(#[trigger] d[i]) by {
            if i < d.len() - 1 {
                assert(d[i] == decimal_digits(n / 10)[i]);
            }
        }
    }
}

/// Every `u32` is spelled in at most ten digits.
proof fn lemma_u32_digits(n: u32)
    ensures
        decimal_digits(n as nat).len() >= 1,
        decimal_digits(n as nat).len() <= 10,
        forall|i: int|
            0 <= i < decimal_digits(n as nat).len() ==> is_digit(
                #[trigger] decimal_digits(n as nat)[i],
            ),
        decimal_value(decimal_digits(n as nat)) == n,
        is_decimal_u32(decimal_digits(n as nat)),
{
    assert(pow10(10) == 10000000000) by {
        reveal_with_fuel(pow10, 11);
    }
    lemma_decimal_digits(n as nat, 10);
}

/// A string without spaces is a single field.
proof fn lemma_fields_plain(d: Seq<u8>)
    requires
        forall|i: int| 0 <= i < d.len() ==> #[trigger] d[i] != 32,
    ensures
        fields(d) == seq![d],
    decreases d.len(),
{
    if d.len() == 0 {
        assert(d =~= Seq::<u8>::empty());
        assert(fields(d) =~= seq![d]);
    } else {
        let t = d.drop_last();
        assert forall|i: int| 0 <= i < t.len() implies #[trigger] t[i] != 32 by {
            assert(t[i] == d[i]);
        }
        lemma_fields_plain(t);
        assert(d[d.len() - 1] != 32);
        assert(t.push(d.last()) =~= d);
        assert(fields(d) =~= seq![d]);
    }
}

/// Appending a space and a string without spaces appends one field.
proof fn lemma_fields_append(x: Seq<u8>, d: Seq<u8>)
    requires
        forall|i: int| 0 <= i < d.len() ==> #[trigger] d[i] != 32,
    ensures
        fields(x + seq![32u8] + d) == fields(x).push(d),
    decreases d.len(),
{
    let y = x + seq![32u8] + d;
    if d.len() == 0 {
        assert(y.drop_last() =~= x);
        assert(d =~= Seq::<u8>::empty());
        assert(y.last() == 32);
        assert(fields(y) =~= fields(x).push(d));
    } else {
        let t = d.drop_last();
        assert forall|i: int| 0 <= i < t.len() implies #[trigger] t[i] != 32 by {
            assert(t[i] == d[i]);
        }
        lemma_fields_append(x, t);
        assert(d[d.len() - 1] != 32);
        assert(y.last() == d.last());
        assert(y.drop_last() =~= x + seq![32u8] + t);
        assert(t.push(d.last()) =~= d);
        assert(fields(y) =~= fields(x).push(d));
    }
}

/// Joining digit strings with spaces gives no newline.
proof fn lemma_no_newline_append(x: Seq<u8>, d: Seq<u8>)
    requires
        forall|i: int| 0 <= i < x.len() ==> #[trigger] x[i] != 10,
        forall|i: int| 0 <= i < d.len() ==> is_digit(#[trigger] d[i]),
    ensures
        forall|i: int| 0 <= i < (x + seq![32u8] + d).len() ==> #[trigger] (x + seq![32u8] + d)[i]
            != 10,
{
    let y = x + seq![32u8] + d;
    assert forall|i: int| 0 <= i < y.len() implies #[trigger] y[i] != 10 by {
        if i < x.len() {
            assert(y[i] == x[i]);
        } else if i == x.len() {
            assert(y[i] == 32);
        } else {
            assert(y[i] == d[i - x.len() - 1]);
        }
    }
}

/// Serializing stats and reading them back gives the same counts.
pub proof fn lemma_stats_round_trip(s: Stats)
    ensures
        parses(stats_text(s.wins@, s.losses)),
        forall|i: int|
            0 <= i < 6 ==> field_value(stats_text(s.wins@, s.losses), i) == #[trigger] s.wins@[i],
        field_value(stats_text(s.wins@, s.losses), 6) == s.losses,
{
    let w = s.wins@;
    let d0 = decimal_digits(w[0] as nat);
    let d1 = decimal_digits(w[1] as nat);
    let d2 = decimal_digits(w[2] as nat);
    let d3 = decimal_digits(w[3] as nat);
    let d4 = decimal_digits(w[4] as nat);
    let d5 = decimal_digits(w[5] as nat);
    let d6 = decimal_digits(s.losses as nat);
    lemma_u32_digits(w[0]);
    lemma_u32_digits(w[1]);
    lemma_u32_digits(w[2]);
    lemma_u32_digits(w[3]);
    lemma_u32_digits(w[4]);
    lemma_u32_digits(w[5]);
    lemma_u32_digits(s.losses);
    let sp = seq![32u8];
    let l1 = d0;
    let l2 = l1 + sp + d1;
    let l3 = l2 + sp + d2;
    let l4 = l3 + sp + d3;
    let l5 = l4 + sp + d4;
    let l6 = l5 + sp + d5;
    let line = l6 + sp + d6;
    assert(line =~= stats_line(w, s.losses));
    assert forall|i: int| 0 <= i < l1.len() implies #[trigger] l1[i] != 10 by {
        assert(is_digit(d0[i]));
    }
    lemma_fields_plain(d0);
    lemma_fields_append(l1, d1);
    lemma_fields_append(l2, d2);
    lemma_fields_append(l3, d3);
    lemma_fields_append(l4, d4);
    lemma_fields_append(l5, d5);
    lemma_fields_append(l6, d6);
    let f = fields(line);
    assert(f =~= seq![d0, d1, d2, d3, d4, d5, d6]);
    let text = stats_text(w, s.losses);
    let p = line.len() as int;
    assert(p <= 76);
    lemma_no_newline_append(l1, d1);
    lemma_no_newline_append(l2, d2);
    lemma_no_newline_append(l3, d3);
    lemma_no_newline_append(l4, d4);
    lemma_no_newline_append(l5, d5);
    lemma_no_newline_append(l6, d6);
    assert forall|q: int| 0 <= q < p implies text[q] != 10 by {
        assert(text[q] == line[q]);
    }
    assert(is_line_end(text, p));
    let c = choose|c: int| is_line_end(text, c);
    if c < p {
        assert(text[c] == 10);
    } else if c > p {
        assert(text[p] == 10);
    }
    assert(text.take(p) =~= line);
    assert(line_of(text) == line);
    assert(f[0] == d0 && f[1] == d1 && f[2] == d2 && f[3] == d3 && f[4] == d4 && f[5] == d5
        && f[6] == d6);
}

} // verus!
