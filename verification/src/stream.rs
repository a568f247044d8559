//! Streams of payloads: a response's body that brings one payload after the other.
//!
//! A payload ends at a line feed, or at two null bytes in a row. A null byte by itself keeps the
//! stream alive and means nothing.

use vstd::prelude::*;
use vstd::utf8::{decode_utf8, valid_utf8};

use crate::text::{opt_text, trim, trimmed};

verus! {

/// What has come of the payload that is being received: its bytes so far, and whether the byte
/// before was a null byte.
#[verifier::ext_equal]
pub struct SplitterView {
    pub pending: Seq<u8>,
    pub after_null: bool,
}

/// Before anything has come.
pub open spec fn fresh() -> SplitterView {
    SplitterView { pending: seq![], after_null: false }
}

/// What one byte does: what is then being received, and the payload that it ends. A line feed ends
/// a payload even if the payload is empty; null bytes do not.
pub open spec fn after_byte(s: SplitterView, b: u8) -> (SplitterView, Option<Seq<u8>>) {
    if b == 10 {
        (fresh(), Some(s.pending))
    } else if b != 0 {
        (SplitterView { pending: s.pending.push(b), after_null: false }, None)
    } else if s.after_null && s.pending.len() > 0 {
        (SplitterView { pending: seq![], after_null: true }, Some(s.pending))
    } else {
        (SplitterView { pending: s.pending, after_null: true }, None)
    }
}

/// A list of one payload, if there is one.
pub open spec fn if_any(payload: Option<Seq<u8>>) -> Seq<Seq<u8>> {
    match payload {
        Some(p) => seq![p],
        None => seq![],
    }
}

/// What several bytes do, one after the other.
pub open spec fn after_bytes(s: SplitterView, bytes: Seq<u8>) -> (SplitterView, Seq<Seq<u8>>)
    decreases bytes.len(),
{
    if bytes.len() == 0 {
        (s, seq![])
    } else {
        let (next, ended) = after_byte(s, bytes[0]);
        let (last, more) = after_bytes(next, bytes.skip(1));
        (last, if_any(ended) + more)
    }
}

/// What is left when the stream ends: a payload, unless it is empty.
pub open spec fn left_over(s: SplitterView) -> Option<Seq<u8>> {
    if s.pending.len() > 0 {
        Some(s.pending)
    } else {
        None
    }
}

/// All payloads of a stream that has ended.
pub open spec fn payloads(body: Seq<u8>) -> Seq<Seq<u8>> {
    let (s, ended) = after_bytes(fresh(), body);
    ended + if_any(left_over(s))
}

/// The bytes of optional payloads.
pub open spec fn opt_bytes(payload: Option<Vec<u8>>) -> Option<Seq<u8>> {
    match payload {
        Some(p) => Some(p@),
        None => None,
    }
}

/// The bytes of several payloads.
pub open spec fn all_bytes(list: Seq<Vec<u8>>) -> Seq<Seq<u8>> {
    list.map_values(|p: Vec<u8>| p@)
}

/// Takes a stream of payloads apart as it comes in.
#[derive(Debug)]
pub struct Splitter {
    pending: Vec<u8>,
    after_null: bool,
}

impl View for Splitter {
    type V = SplitterView;

    closed spec fn view(&self) -> SplitterView {
        SplitterView { pending: self.pending@, after_null: self.after_null }
    }
}

impl Splitter {
    /// A splitter that nothing has come to.
    pub fn new() -> (r: Self)
        ensures
            r@ == fresh(),
    {
        Splitter { pending: Vec::new(), after_null: false }
    }

    /// Takes one byte, and gives the payload that it ends.
    pub fn feed(&mut self, b: u8) -> (r: Option<Vec<u8>>)
        ensures
            (final(self)@, opt_bytes(r)) == after_byte(old(self)@, b),
    {
        if b == 10 {
            let mut payload: Vec<u8> = Vec::new();
            std::mem::swap(&mut payload, &mut self.pending);
            self.after_null = false;
            assert(self@ == fresh());
            Some(payload)
        } else if b != 0 {
            self.pending.push(b);
            self.after_null = false;
            None
        } else if self.after_null && self.pending.len() > 0 {
            let mut payload: Vec<u8> = Vec::new();
            std::mem::swap(&mut payload, &mut self.pending);
            Some(payload)
        } else {
            self.after_null = true;
            None
        }
    }

    /// Takes several bytes, and gives the payloads that they end.
    pub fn feed_all(&mut self, bytes: &[u8]) -> (r: Vec<Vec<u8>>)
        ensures
            (final(self)@, all_bytes(r@)) == after_bytes(old(self)@, bytes@),
    {
        let mut out: Vec<Vec<u8>> = Vec::new();
        let ghost start = self@;
        let mut i: usize = 0;
        assert(bytes@.skip(0) == bytes@);
        assert(after_bytes(self@, bytes@.skip(0)).1 == all_bytes(out@) + after_bytes(
            self@,
            bytes@.skip(0),
        ).1);
        while i < bytes.len()
            invariant
                i <= bytes.len(),
                after_bytes(start, bytes@).0 == after_bytes(self@, bytes@.skip(i as int)).0,
                after_bytes(start, bytes@).1 == all_bytes(out@) + after_bytes(
                    self@,
                    bytes@.skip(i as int),
                ).1,
            decreases bytes.len() - i,
        {
            let ghost before = self@;
            let ghost had = all_bytes(out@);
            let ghost rest = bytes@.skip(i as int);
            let ended: Option<Vec<u8>> = self.feed(bytes[i]);
            let ghost mark = opt_bytes(ended);
            match ended {
                Some(p) => {
                    out.push(p);
                },
                None => {},
            }
            proof {
                assert(rest[0] == bytes@[i as int]);
                assert(rest.skip(1) == bytes@.skip(i + 1));
                assert(all_bytes(out@) == had + if_any(mark));
                assert(all_bytes(out@) + after_bytes(self@, bytes@.skip(i + 1)).1 == had + (if_any(
                    mark,
                ) + after_bytes(self@, bytes@.skip(i + 1)).1));
            }
            i = i + 1;
        }
        assert(bytes@.skip(i as int).len() == 0);
        assert(after_bytes(start, bytes@).1 == all_bytes(out@));
        out
    }

    /// Gives what is left when the stream ends.
    pub fn finish(self) -> (r: Option<Vec<u8>>)
        ensures
            opt_bytes(r) == left_over(self@),
    {
        if self.pending.len() > 0 {
            Some(self.pending)
        } else {
            None
        }
    }
}

/// `String::from_utf8` gives the text that bytes spell in UTF-8, and fails on bytes that are not
/// UTF-8.
#[verifier::external_body]
fn utf8_text(bytes: Vec<u8>) -> (r: Option<String>)
    ensures
        match r {
            Some(text) => valid_utf8(bytes@) && text@ == decode_utf8(bytes@),
            None => !valid_utf8(bytes@),
        },
{
    String::from_utf8(bytes).ok()
}

/// The text of a payload, without the white space around it, where the payload is UTF-8.
pub open spec fn payload_text(payload: Seq<u8>) -> Option<Seq<char>> {
    if valid_utf8(payload) {
        Some(trimmed(decode_utf8(payload)))
    } else {
        None
    }
}

/// Reads the text of a payload.
pub fn read_payload(payload: Vec<u8>) -> (r: Option<String>)
    ensures
        opt_text(r) == payload_text(payload@),
{
    match utf8_text(payload) {
        Some(text) => Some(trim(text.as_str())),
        None => None,
    }
}

/// However a stream is cut into pieces on its way, the same payloads come of it.
pub proof fn law_pieces_do_not_matter(s: SplitterView, a: Seq<u8>, b: Seq<u8>)
    ensures
        after_bytes(s, a + b) == (
            after_bytes(after_bytes(s, a).0, b).0,
            after_bytes(s, a).1 + after_bytes(after_bytes(s, a).0, b).1,
        ),
    decreases a.len(),
{
    if a.len() == 0 {
        assert(a + b == b);
        assert(after_bytes(s, a).1 + after_bytes(s, b).1 == after_bytes(s, b).1);
    } else {
        let (next, ended) = after_byte(s, a[0]);
        assert((a + b)[0] == a[0]);
        assert((a + b).skip(1) == a.skip(1) + b);
        law_pieces_do_not_matter(next, a.skip(1), b);
        let first = after_bytes(next, a.skip(1));
        let second = after_bytes(first.0, b);
        assert(if_any(ended) + (first.1 + second.1) == (if_any(ended) + first.1) + second.1);
    }
}

/// A null byte by itself changes nothing.
pub proof fn law_lone_null_is_nothing(a: Seq<u8>, b: Seq<u8>)
    requires
        a.len() > 0 ==> a.last() != 0,
        b.len() > 0 ==> b[0] != 0,
    ensures
        payloads(a + seq![0u8] + b) == payloads(a + b),
{
    let zero = seq![0u8];
    let (s, _) = after_bytes(fresh(), a);
    assert(!s.after_null) by {
        if a.len() > 0 {
            let front = a.drop_last();
            let tail = seq![a.last()];
            assert(a == front + tail);
            law_pieces_do_not_matter(fresh(), front, tail);
            let mid = after_bytes(fresh(), front).0;
            assert(tail.skip(1).len() == 0);
            assert(after_bytes(mid, tail).0 == after_byte(mid, a.last()).0) by {
                reveal_with_fuel(after_bytes, 2);
            }
        }
    }
    let (z, none) = after_byte(s, 0);
    assert(after_bytes(s, zero) == (z, Seq::<Seq<u8>>::empty())) by {
        reveal_with_fuel(after_bytes, 2);
        assert(zero.skip(1).len() == 0);
        assert(if_any(none) + Seq::<Seq<u8>>::empty() == Seq::<Seq<u8>>::empty());
    }
    law_pieces_do_not_matter(fresh(), a, b);
    assert(a + zero + b == a + (zero + b));
    law_pieces_do_not_matter(fresh(), a, zero + b);
    law_pieces_do_not_matter(s, zero, b);
    assert(Seq::<Seq<u8>>::empty() + after_bytes(z, b).1 == after_bytes(z, b).1);
    if b.len() > 0 {
        assert(after_byte(z, b[0]) == after_byte(s, b[0]));
    }
}

/// Bytes that are neither null bytes nor line feeds are added to what is being received.
proof fn lemma_plain_bytes(s: SplitterView, bytes: Seq<u8>)
    requires
        forall|i: int| 0 <= i < bytes.len() ==> #[trigger] bytes[i] != 0 && bytes[i] != 10,
    ensures
        after_bytes(s, bytes).0.pending == s.pending + bytes,
        after_bytes(s, bytes).0.after_null == (bytes.len() == 0 && s.after_null),
        after_bytes(s, bytes).1 == Seq::<Seq<u8>>::empty(),
    decreases bytes.len(),
{
    if bytes.len() == 0 {
        assert(s.pending + bytes == s.pending);
    } else {
        let (next, ended) = after_byte(s, bytes[0]);
        lemma_plain_bytes(next, bytes.skip(1));
        assert(s.pending.push(bytes[0]) + bytes.skip(1) == s.pending + bytes);
        assert(if_any(ended) + after_bytes(next, bytes.skip(1)).1 == Seq::<Seq<u8>>::empty());
    }
}

/// Null bytes where nothing is being received end nothing.
proof fn lemma_idle_nulls(k: nat)
    ensures
        after_bytes(
            SplitterView { pending: seq![], after_null: true },
            Seq::new(k, |i: int| 0u8),
        ) == (SplitterView { pending: seq![], after_null: true }, Seq::<Seq<u8>>::empty()),
    decreases k,
{
    if k > 0 {
        let idle = SplitterView { pending: Seq::<u8>::empty(), after_null: true };
        let nulls = Seq::new(k, |i: int| 0u8);
        lemma_idle_nulls((k - 1) as nat);
        assert(nulls.skip(1) == Seq::new((k - 1) as nat, |i: int| 0u8));
        assert(after_byte(idle, 0).0 == idle);
        assert(if_any(None) + Seq::<Seq<u8>>::empty() == Seq::<Seq<u8>>::empty());
    }
}

/// Two null bytes end whatever is being received.
proof fn lemma_two_nulls(s: SplitterView)
    ensures
        after_bytes(s, seq![0u8, 0u8]) == (
            SplitterView { pending: Seq::<u8>::empty(), after_null: true },
            if_any(left_over(s)),
        ),
{
    let two = seq![0u8, 0u8];
    assert(two.skip(1) == seq![0u8]);
    assert(two.skip(1).skip(1).len() == 0);
    reveal_with_fuel(after_bytes, 3);
    assert(s.pending.len() == 0 ==> s.pending == Seq::<u8>::empty());
    assert(after_bytes(s, two).1 == if_any(left_over(s)));
}

/// A payload that two null bytes follow is given at the second of them, whatever came before it, as
/// long as nothing else was being received.
pub proof fn law_payload_comes_at_once(s: SplitterView, payload: Seq<u8>)
    requires
        s.pending.len() == 0,
        payload.len() > 0,
        forall|i: int| 0 <= i < payload.len() ==> #[trigger] payload[i] != 0 && payload[i] != 10,
    ensures
        after_bytes(s, payload + seq![0u8, 0u8]) == (
            SplitterView { pending: Seq::<u8>::empty(), after_null: true },
            seq![payload],
        ),
{
    lemma_plain_bytes(s, payload);
    assert(s.pending + payload == payload);
    law_pieces_do_not_matter(s, payload, seq![0u8, 0u8]);
    lemma_two_nulls(after_bytes(s, payload).0);
    assert(Seq::<Seq<u8>>::empty() + seq![payload] == seq![payload]);
}

/// At least two null bytes part what comes before them from what comes after, whatever either is.
pub proof fn law_nulls_part_payloads(a: Seq<u8>, nulls: nat, b: Seq<u8>)
    requires
        nulls >= 2,
    ensures
        payloads(a + Seq::new(nulls, |i: int| 0u8) + b) == payloads(a) + payloads(b),
{
    let zeros = Seq::new(nulls, |i: int| 0u8);
    let two = seq![0u8, 0u8];
    let more = Seq::new((nulls - 2) as nat, |i: int| 0u8);
    let idle = SplitterView { pending: Seq::<u8>::empty(), after_null: true };
    let (s, ended) = after_bytes(fresh(), a);
    assert(a + zeros + b == a + (two + (more + b)));
    law_pieces_do_not_matter(fresh(), a, two + (more + b));
    law_pieces_do_not_matter(s, two, more + b);
    lemma_two_nulls(s);
    law_pieces_do_not_matter(idle, more, b);
    lemma_idle_nulls((nulls - 2) as nat);
    let from_idle = after_bytes(idle, b);
    let from_fresh = after_bytes(fresh(), b);
    assert(Seq::<Seq<u8>>::empty() + from_idle.1 == from_idle.1);
    if b.len() > 0 {
        assert(after_byte(idle, b[0]) == after_byte(fresh(), b[0]));
    }
    assert(from_idle.1 == from_fresh.1);
    assert(left_over(from_idle.0) == left_over(from_fresh.0));
    assert(ended + (if_any(left_over(s)) + from_fresh.1) + if_any(left_over(from_fresh.0)) == (ended
        + if_any(left_over(s))) + (from_fresh.1 + if_any(left_over(from_fresh.0))));
}

/// The number of bytes before the first line feed.
pub open spec fn line_length(body: Seq<u8>) -> nat
    decreases body.len(),
{
    if body.len() == 0 || body[0] == 10 {
        0
    } else {
        1 + line_length(body.skip(1))
    }
}

/// The lines of a text, without the line feeds that end them.
pub open spec fn lines(body: Seq<u8>) -> Seq<Seq<u8>>
    decreases body.len(),
{
    let n = line_length(body) as int;
    if body.len() == 0 {
        seq![]
    } else if n >= body.len() {
        seq![body]
    } else {
        seq![body.take(n)] + lines(body.skip(n + 1))
    }
}

/// A line ends at the first line feed, or at the end of the text.
proof fn lemma_line_length(body: Seq<u8>)
    ensures
        line_length(body) <= body.len(),
        line_length(body) < body.len() ==> body[line_length(body) as int] == 10,
        forall|i: int| 0 <= i < line_length(body) ==> #[trigger] body[i] != 10,
    decreases body.len(),
{
    if body.len() > 0 && body[0] != 10 {
        lemma_line_length(body.skip(1));
        assert forall|i: int| 0 <= i < line_length(body) implies #[trigger] body[i] != 10 by {
            if i > 0 {
                assert(body[i] == body.skip(1)[i - 1]);
            }
        }
    }
}

/// The payloads of a stream without null bytes are its lines.
pub proof fn law_lines_are_payloads(body: Seq<u8>)
    requires
        forall|i: int| 0 <= i < body.len() ==> #[trigger] body[i] != 0,
    ensures
        payloads(body) == lines(body),
    decreases body.len(),
{
    lemma_line_length(body);
    let n = line_length(body) as int;
    if n == body.len() {
        lemma_plain_bytes(fresh(), body);
        assert(fresh().pending + body == body);
    } else {
        let line = body.take(n);
        let rest = body.skip(n + 1);
        let tail = body.skip(n);
        assert(body == line + tail);
        assert forall|i: int| 0 <= i < line.len() implies #[trigger] line[i] != 0 && line[i]
            != 10 by {
            assert(line[i] == body[i]);
        }
        lemma_plain_bytes(fresh(), line);
        assert(fresh().pending + line == line);
        law_pieces_do_not_matter(fresh(), line, tail);
        assert(tail.skip(1) == rest);
        let (s, ended) = after_bytes(fresh(), rest);
        assert(Seq::<Seq<u8>>::empty() + (seq![line] + ended) == seq![line] + ended);
        assert(seq![line] + ended + if_any(left_over(s)) == seq![line] + (ended + if_any(
            left_over(s),
        )));
        law_lines_are_payloads(rest);
    }
}

} // verus!
