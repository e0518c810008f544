//! Incremental reading of a newline-delimited JSON stream that arrives in
//! chunks of any size.
use vstd::prelude::*;
use crate::json::{decode_line, line_record, LineRecord};

verus! {

/// The line terminator.
pub const NEWLINE: u8 = 10;

/// Bytes that trimming removes: space, tab, line feed, form feed, carriage return.
pub open spec fn is_space(b: u8) -> bool {
    b == 32 || b == 9 || b == 10 || b == 12 || b == 13
}

/// Whether trimming removes byte `b`.
pub fn space_byte(b: u8) -> (r: bool)
    ensures
        r == is_space(b),
{
    b == 32 || b == 9 || b == 10 || b == 12 || b == 13
}

/// `s` without its leading white space.
pub open spec fn trim_front(s: Seq<u8>) -> Seq<u8>
    decreases s.len(),
{
    if s.len() > 0 && is_space(s[0]) {
        trim_front(s.drop_first())
    } else {
        s
    }
}

/// `s` without its trailing white space.
pub open spec fn trim_back(s: Seq<u8>) -> Seq<u8>
    decreases s.len(),
{
    if s.len() > 0 && is_space(s.last()) {
        trim_back(s.drop_last())
    } else {
        s
    }
}

/// `s` without white space at either end.
pub open spec fn trim(s: Seq<u8>) -> Seq<u8> {
    trim_back(trim_front(s))
}

/// Where the first line terminator of `s` stands, or `s.len()` if none does.
pub open spec fn newline_at(s: Seq<u8>) -> int
    decreases s.len(),
{
    if s.len() == 0 {
        0
    } else if s[0] == NEWLINE {
        0
    } else {
        1 + newline_at(s.drop_first())
    }
}

/// The records of a line: none when it is blank once trimmed.
pub open spec fn records_of_line(line: Seq<u8>, is_final: bool) -> Seq<(Seq<char>, bool)> {
    if trim(line).len() == 0 {
        Seq::empty()
    } else {
        seq![line_record(trim(line), is_final)]
    }
}

/// The records of the complete (terminated) lines of `s`, in order.
pub open spec fn complete_records(s: Seq<u8>) -> Seq<(Seq<char>, bool)>
    decreases s.len(),
{
    let k = newline_at(s);
    if 0 <= k < s.len() {
        records_of_line(s.take(k), false) + complete_records(s.skip(k + 1))
    } else {
        Seq::empty()
    }
}

/// What follows the last line terminator of `s`: the unterminated part.
pub open spec fn remainder(s: Seq<u8>) -> Seq<u8>
    decreases s.len(),
{
    let k = newline_at(s);
    if 0 <= k < s.len() {
        remainder(s.skip(k + 1))
    } else {
        s
    }
}

/// Every record of a whole stream: its complete lines, then its unterminated
/// remainder read as a final line.
pub open spec fn stream_records(s: Seq<u8>) -> Seq<(Seq<char>, bool)> {
    complete_records(s) + records_of_line(remainder(s), true)
}

/// The records produced and the carry-over left after feeding `chunks`, one
/// at a time, to a reader whose carry-over is `carry`.
pub open spec fn feed(carry: Seq<u8>, chunks: Seq<Seq<u8>>) -> (Seq<(Seq<char>, bool)>, Seq<u8>)
    decreases chunks.len(),
{
    if chunks.len() == 0 {
        (Seq::empty(), carry)
    } else {
        let joined = carry + chunks[0];
        let next = feed(remainder(joined), chunks.drop_first());
        (complete_records(joined) + next.0, next.1)
    }
}

/// The views of a sequence of records.
pub open spec fn views_of(rs: Seq<LineRecord>) -> Seq<(Seq<char>, bool)> {
    rs.map_values(|r: LineRecord| r@)
}

proof fn lemma_newline_at_bounds(s: Seq<u8>)
    ensures
        0 <= newline_at(s) <= s.len(),
        newline_at(s) < s.len() ==> s[newline_at(s)] == NEWLINE,
        forall|i: int| 0 <= i < newline_at(s) ==> s[i] != NEWLINE,
    decreases s.len(),
{
    if s.len() > 0 && s[0] != NEWLINE {
        lemma_newline_at_bounds(s.drop_first());
        assert forall|i: int| 0 <= i < newline_at(s) implies s[i] != NEWLINE by {
            if i > 0 {
                assert(s[i] == s.drop_first()[i - 1]);
            }
        }
    }
}

proof fn lemma_newline_at_is(s: Seq<u8>, k: int)
    requires
        0 <= k <= s.len(),
        k == s.len() || s[k] == NEWLINE,
        forall|i: int| 0 <= i < k ==> s[i] != NEWLINE,
    ensures
        newline_at(s) == k,
    decreases k,
{
    if k > 0 {
        lemma_newline_at_is(s.drop_first(), k - 1);
    }
}

proof fn lemma_newline_at_append(a: Seq<u8>, b: Seq<u8>)
    ensures
        newline_at(a) < a.len() ==> newline_at(a + b) == newline_at(a),
        newline_at(a) == a.len() ==> newline_at(a + b) == a.len() + newline_at(b),
{
    lemma_newline_at_bounds(a);
    lemma_newline_at_bounds(b);
    let ab = a + b;
    if newline_at(a) < a.len() {
        lemma_newline_at_is(ab, newline_at(a));
    } else {
        lemma_newline_at_is(ab, a.len() + newline_at(b));
    }
}

/// Splitting a stream in two changes nothing: the complete lines of the
/// whole are those of the first part, then those of its remainder joined to
/// the second part.
proof fn lemma_split(a: Seq<u8>, b: Seq<u8>)
    ensures
        complete_records(a + b) == complete_records(a) + complete_records(remainder(a) + b),
        remainder(a + b) == remainder(remainder(a) + b),
    decreases a.len(),
{
    lemma_newline_at_bounds(a);
    lemma_newline_at_append(a, b);
    let k = newline_at(a);
    if k < a.len() {
        let ab = a + b;
        assert(ab.take(k) =~= a.take(k));
        assert(ab.skip(k + 1) =~= a.skip(k + 1) + b);
        lemma_split(a.skip(k + 1), b);
        assert(complete_records(a) == records_of_line(a.take(k), false) + complete_records(a.skip(k + 1)));
        assert(complete_records(ab) == records_of_line(ab.take(k), false) + complete_records(ab.skip(k + 1)));
        assert(complete_records(ab) =~= complete_records(a) + complete_records(remainder(a) + b));
    } else {
        assert(remainder(a) == a);
        assert(complete_records(a) == Seq::<(Seq<char>, bool)>::empty());
        assert(complete_records(a + b) =~= complete_records(a) + complete_records(remainder(a) + b));
    }
}

proof fn lemma_feed(carry: Seq<u8>, chunks: Seq<Seq<u8>>)
    requires
        newline_at(carry) == carry.len(),
    ensures
        feed(carry, chunks).0 == complete_records(carry + chunks.flatten()),
        feed(carry, chunks).1 == remainder(carry + chunks.flatten()),
    decreases chunks.len(),
{
    if chunks.len() == 0 {
        assert(chunks.flatten() =~= Seq::<u8>::empty());
        assert(carry + chunks.flatten() =~= carry);
    } else {
        let joined = carry + chunks[0];
        let rest = chunks.drop_first();
        lemma_no_newline_after_remainder(joined);
        lemma_feed(remainder(joined), rest);
        assert(chunks.flatten() == chunks[0] + rest.flatten());
        assert(carry + chunks.flatten() =~= joined + rest.flatten());
        lemma_split(joined, rest.flatten());
    }
}

proof fn lemma_no_newline_after_remainder(s: Seq<u8>)
    ensures
        newline_at(remainder(s)) == remainder(s).len(),
    decreases s.len(),
{
    lemma_newline_at_bounds(s);
    let k = newline_at(s);
    if k < s.len() {
        lemma_no_newline_after_remainder(s.skip(k + 1));
    }
}

/// However a stream is cut into chunks, feeding them one at a time and then
/// reading the remainder gives the records of the whole stream, in order.
pub proof fn lemma_chunking_irrelevant(chunks: Seq<Seq<u8>>)
    ensures
        feed(Seq::empty(), chunks).0 + records_of_line(feed(Seq::empty(), chunks).1, true)
            == stream_records(chunks.flatten()),
{
    lemma_feed(Seq::empty(), chunks);
    assert(Seq::<u8>::empty() + chunks.flatten() =~= chunks.flatten());
}

/// Reads a JSON-lines stream chunk by chunk, carrying an unterminated line
/// over to the next chunk.
pub struct StreamIngester {
    carry: Vec<u8>,
}

impl StreamIngester {
    /// The bytes received after the last line terminator.
    pub closed spec fn pending(&self) -> Seq<u8> {
        self.carry@
    }

    /// A reader that has seen nothing yet.
    pub fn new() -> (r: StreamIngester)
        ensures
            r.pending() == Seq::<u8>::empty(),
    {
        StreamIngester { carry: Vec::new() }
    }

    /// Takes one chunk and returns the records of the lines it completes.
    pub fn ingest(&mut self, chunk: &[u8]) -> (r: Vec<LineRecord>)
        ensures
            views_of(r@) == complete_records(old(self).pending() + chunk@),
            final(self).pending() == remainder(old(self).pending() + chunk@),
    {
        let ghost joined = self.carry@ + chunk@;
        let mut i: usize = 0;
        while i < chunk.len()
            invariant
                i <= chunk@.len(),
                self.carry@ == old(self).carry@ + chunk@.subrange(0, i as int),
            decreases chunk@.len() - i,
        {
            self.carry.push(chunk[i]);
            i = i + 1;
            assert(self.carry@ =~= old(self).carry@ + chunk@.subrange(0, i as int));
        }
        assert(self.carry@ =~= joined);
        let buf = &self.carry;
        let n = buf.len();
        let mut out: Vec<LineRecord> = Vec::new();
        let mut start: usize = 0;
        let mut j: usize = 0;
        assert(joined.skip(0) =~= joined);
        while j < n
            invariant
                buf@ == joined,
                n == joined.len(),
                start <= j <= n,
                forall|t: int| start <= t < j ==> joined[t] != NEWLINE,
                complete_records(joined) == views_of(out@) + complete_records(joined.skip(start as int)),
                remainder(joined) == remainder(joined.skip(start as int)),
            decreases n - j,
        {
            if buf[j] == NEWLINE {
                let ghost tail = joined.skip(start as int);
                proof {
                    lemma_newline_at_is(tail, j - start);
                    assert(tail.take(j - start) =~= joined.subrange(start as int, j as int));
                    assert(tail.skip(j - start + 1) =~= joined.skip(j + 1));
                }
                let line = &buf.as_slice()[start..j];
                let recs = records_for(line, false);
                let ghost before = out@;
                let mut recs = recs;
                out.append(&mut recs);
                proof {
                    assert(views_of(out@) =~= views_of(before) + records_of_line(joined.subrange(start as int, j as int), false));
                }
                start = j + 1;
            }
            j = j + 1;
        }
        let ghost tail = joined.skip(start as int);
        proof {
            lemma_newline_at_is(tail, tail.len() as int);
            assert(complete_records(tail) == Seq::<(Seq<char>, bool)>::empty());
            assert(views_of(out@) + complete_records(tail) =~= views_of(out@));
        }
        let mut rest: Vec<u8> = Vec::new();
        let mut t: usize = start;
        while t < n
            invariant
                buf@ == joined,
                n == joined.len(),
                start <= t <= n,
                rest@ == joined.subrange(start as int, t as int),
            decreases n - t,
        {
            rest.push(buf[t]);
            t = t + 1;
            assert(rest@ =~= joined.subrange(start as int, t as int));
        }
        assert(rest@ =~= tail);
        self.carry = rest;
        out
    }

    /// Ends the stream: the records of the unterminated remainder, if any;
    /// the reader is left empty.
    pub fn finish(&mut self) -> (r: Vec<LineRecord>)
        ensures
            views_of(r@) == records_of_line(old(self).pending(), true),
            final(self).pending() == Seq::<u8>::empty(),
    {
        let r = records_for(self.carry.as_slice(), true);
        self.carry = Vec::new();
        r
    }
}

/// Trims a line; `(a, b)` bounds what is left.
fn trim_bounds(line: &[u8]) -> (r: (usize, usize))
    ensures
        r.0 <= r.1 <= line@.len(),
        line@.subrange(r.0 as int, r.1 as int) == trim(line@),
{
    let n = line.len();
    let mut a: usize = 0;
    assert(line@.subrange(0, n as int) =~= line@);
    while a < n && space_byte(line[a])
        invariant
            a <= n,
            n == line@.len(),
            trim_front(line@) == trim_front(line@.subrange(a as int, n as int)),
        decreases n - a,
    {
        assert(line@.subrange(a as int, n as int).drop_first() =~= line@.subrange(a + 1, n as int));
        a = a + 1;
    }
    let ghost front = line@.subrange(a as int, n as int);
    assert(trim_front(line@) == front);
    let mut b: usize = n;
    while b > a && space_byte(line[b - 1])
        invariant
            a <= b <= n,
            n == line@.len(),
            front == line@.subrange(a as int, n as int),
            trim_back(front) == trim_back(line@.subrange(a as int, b as int)),
        decreases b,
    {
        assert(line@.subrange(a as int, b as int).drop_last() =~= line@.subrange(a as int, b - 1));
        b = b - 1;
    }
    (a, b)
}

/// The records of one line: none if it is blank once trimmed.
fn records_for(line: &[u8], is_final: bool) -> (r: Vec<LineRecord>)
    ensures
        views_of(r@) == records_of_line(line@, is_final),
{
    let (a, b) = trim_bounds(line);
    let mut out: Vec<LineRecord> = Vec::new();
    if a < b {
        let trimmed = &line[a..b];
        out.push(decode_line(trimmed, is_final));
        assert(views_of(out@) =~= records_of_line(line@, is_final));
    } else {
        assert(views_of(out@) =~= records_of_line(line@, is_final));
    }
    out
}

} // verus!
