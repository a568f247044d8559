//! How numbers and texts are written and read, and how streams are taken apart, stated of the
//! functions themselves.

use vstd::prelude::*;
use vstd::utf8::{decode_utf8, encode_utf8, valid_utf8};

use crate::raccord::{message_body, MessageType};
use crate::stream::{
    after_byte, after_bytes, if_any, left_over, lines, payloads, read_payload, Splitter,
    SplitterView,
};
use crate::text::{
    chars_of, clone_opt, decimal, decimal_text, digits_value, escape, escaped, escaped_char,
    hexadecimal, parse_number, slash_join, slashed, texts, trim, trimmed,
    trimmed_end, trimmed_start, without_plus,
};

verus! {

/// A number below ten is written as its digit. A number with one more digit is written as the number
/// without it and then the digit.
pub proof fn law_decimal(n: u64, d: u64, more: u64, a: String, b: String)
    requires
        call_ensures(decimal_text, (n,), a),
        call_ensures(decimal_text, (more,), b),
        d < 10,
        more == 10 * n + d,
    ensures
        n < 10 ==> a@.len() == 1 && a@[0] as int == 48 + n,
        n > 0 ==> b@.len() == a@.len() + 1 && b@.drop_last() == a@ && b@.last() as int == 48 + d,
{
    if n > 0 {
        assert(more as nat / 10 == n as nat);
        assert(more as nat % 10 == d as nat);
        assert(b@ == decimal(n as nat).push((d + 48) as char));
        assert(b@.drop_last() == a@);
    }
}

/// Two numbers are never written alike.
pub proof fn law_decimals_differ(m: u64, n: u64, a: String, b: String)
    requires
        call_ensures(decimal_text, (m,), a),
        call_ensures(decimal_text, (n,), b),
        a@ == b@,
    ensures
        m == n,
{
    crate::text::lemma_decimal_reads_back(m as nat);
    crate::text::lemma_decimal_reads_back(n as nat);
}

/// A text that does not end with a digit is no number, and neither is an empty one.
pub proof fn law_no_number(text: &str, max: u64, r: Option<u64>)
    requires
        call_ensures(parse_number, (text, max), r),
        text@.len() == 0 || (text@.last() as int) < 48 || text@.last() as int > 57,
    ensures
        r is None,
{
    let digits = without_plus(text@);
    if digits.len() > 0 {
        assert(digits.last() == text@.last());
        assert(!crate::text::is_digit(digits[digits.len() - 1]));
    }
}

/// A text with one more digit is the number without it times ten, plus the digit, unless that is
/// above the bound; what is no number stays none. A first digit may come after a plus sign.
pub proof fn law_number_goes_on(
    text: &str,
    more: &str,
    d: u64,
    max: u64,
    r: Option<u64>,
    s: Option<u64>,
)
    requires
        call_ensures(parse_number, (text, max), r),
        call_ensures(parse_number, (more, max), s),
        d < 10,
        more@.len() == text@.len() + 1,
        more@.drop_last() == text@,
        more@.last() as int == 48 + d,
    ensures
        ({
            let first = text@.len() == 0 || (text@.len() == 1 && text@[0] as int == 43);
            &&& first && d <= max ==> s == Some(d)
            &&& first && d > max ==> s is None
            &&& !first && r is None ==> s is None
            &&& !first && r is Some && 10 * r->0 + d <= max ==> s is Some && s->0 == 10 * r->0 + d
            &&& !first && r is Some && 10 * r->0 + d > max ==> s is None
        }),
{
    let before = without_plus(text@);
    let after = without_plus(more@);
    assert(more@ == text@.push(more@.last()));
    if text@.len() == 0 {
        assert(more@[0] == more@.last());
    } else {
        assert(more@[0] == text@[0]);
    }
    assert(after.drop_last() == before);
    assert(after.last() == more@.last());
    assert(digits_value(after) == digits_value(before) * 10 + d);
    assert(after == before.push(after.last()));
    if crate::text::all_digits(before) {
        assert forall|i: int| 0 <= i < after.len() implies crate::text::is_digit(
            #[trigger] after[i],
        ) by {
            if i < before.len() {
                assert(after[i] == before[i]);
            }
        }
    }
    if crate::text::all_digits(after) {
        assert forall|i: int| 0 <= i < before.len() implies crate::text::is_digit(
            #[trigger] before[i],
        ) by {
            assert(after[i] == before[i]);
        }
    }
    assert(before.len() == 0 ==> digits_value(before) == 0);
}

/// The number that digits stand for in a base.
pub open spec fn in_base(digits: Seq<int>, base: int) -> int
    decreases digits.len(),
{
    if digits.len() == 0 {
        0
    } else {
        in_base(digits.drop_last(), base) * base + digits.last()
    }
}

/// Whether digits are those of a number in a base, without leading zeros.
pub open spec fn are_digits(digits: Seq<int>, base: int, n: int) -> bool {
    &&& digits.len() > 0
    &&& digits.len() > 1 ==> digits[0] != 0
    &&& forall|i: int| 0 <= i < digits.len() ==> 0 <= #[trigger] digits[i] < base
    &&& in_base(digits, base) == n
}

/// The digits of a number in base sixteen.
proof fn lemma_hexadecimal(n: nat) -> (digits: Seq<int>)
    ensures
        are_digits(digits, 16, n as int),
        hexadecimal(n).len() == digits.len(),
        n > 0 ==> digits[0] != 0,
        forall|i: int| 0 <= i < digits.len() ==> is_hex(#[trigger] hexadecimal(n)[i], digits[i]),
    decreases n,
{
    let last = (n % 16) as int;
    if n < 16 {
        let digits = seq![last];
        assert(digits.drop_last() == Seq::<int>::empty());
        assert(in_base(digits.drop_last(), 16) == 0);
        digits
    } else {
        let front = lemma_hexadecimal(n / 16);
        let digits = front.push(last);
        assert(digits.drop_last() == front);
        assert forall|i: int| 0 <= i < digits.len() implies is_hex(
            #[trigger] hexadecimal(n)[i],
            digits[i],
        ) by {
            if i < front.len() {
                assert(hexadecimal(n)[i] == hexadecimal(n / 16)[i]);
            }
        }
        digits
    }
}

/// Whether a character is a hexadecimal digit, in lower case.
pub open spec fn is_hex(c: char, d: int) -> bool {
    if d < 10 {
        c as int == 48 + d
    } else {
        c as int == 87 + d
    }
}

/// One escaped text is its character's escape.
proof fn lemma_escaped_one(c: char)
    ensures
        escaped(seq![c]) == escaped_char(c),
{
    let none = Seq::<char>::empty();
    assert(seq![c].drop_last() == none);
    assert(escaped(none) + escaped_char(c) == escaped_char(c));
}

/// Whether a text is a backslash, `u`, and the digits of a number in base sixteen in braces.
pub open spec fn is_escape(s: Seq<char>, n: int, digits: Seq<int>) -> bool {
    &&& are_digits(digits, 16, n)
    &&& s.len() == digits.len() + 4
    &&& s[0] == '\\' && s[1] == 'u' && s[2] == '{' && s.last() == '}'
    &&& forall|i: int| 0 <= i < digits.len() ==> is_hex(#[trigger] s[i + 3], digits[i])
}

/// A character is escaped as a backslash, `u`, and the hexadecimal digits of its code point in
/// braces, whatever character it is.
pub proof fn law_escaped_character(c: char, s: &str, r: String)
    requires
        call_ensures(escape, (s,), r),
        s@ == seq![c],
    ensures
        exists|digits: Seq<int>| is_escape(r@, c as int, digits),
{
    lemma_escaped_one(c);
    let x = hexadecimal((c as u32) as nat);
    let digits = lemma_hexadecimal((c as u32) as nat);
    assert(r@ == seq!['\\', 'u', '{'] + x + seq!['}']);
    assert forall|i: int| 0 <= i < digits.len() implies is_hex(#[trigger] r@[i + 3], digits[i]) by {
        assert(r@[i + 3] == x[i]);
    }
    assert(is_escape(r@, c as int, digits));
}

/// Escapes go on one after the other.
proof fn lemma_escaped_parts(s: Seq<char>, t: Seq<char>)
    ensures
        escaped(s + t) == escaped(s) + escaped(t),
    decreases t.len(),
{
    if t.len() == 0 {
        assert(s + t == s);
        assert(escaped(s) + escaped(t) == escaped(s));
    } else {
        lemma_escaped_parts(s, t.drop_last());
        assert((s + t).drop_last() == s + t.drop_last());
        assert((s + t).last() == t.last());
        assert(escaped(s) + escaped(t.drop_last()) + escaped_char(t.last()) == escaped(s) + (escaped(
            t.drop_last(),
        ) + escaped_char(t.last())));
    }
}

/// A text in two parts is escaped as the one and then the other, and an empty one as nothing.
pub proof fn law_escaped_text(s: &str, t: &str, both: &str, a: String, b: String, c: String)
    requires
        call_ensures(escape, (s,), a),
        call_ensures(escape, (t,), b),
        call_ensures(escape, (both,), c),
        both@ == s@ + t@,
    ensures
        c@ == a@ + b@,
        s@.len() == 0 ==> a@.len() == 0,
{
    lemma_escaped_parts(s@, t@);
}

/// Words in two parts are joined part by part.
proof fn lemma_slashed_parts(a: Seq<Seq<char>>, b: Seq<Seq<char>>)
    requires
        a.len() > 0,
        b.len() > 0,
    ensures
        slashed(a + b) == slashed(a).push('/') + slashed(b),
    decreases b.len(),
{
    assert((a + b).drop_last() == a + b.drop_last());
    assert((a + b).last() == b.last());
    if b.len() == 1 {
        assert(a + b.drop_last() == a);
    } else {
        lemma_slashed_parts(a, b.drop_last());
        assert(slashed(a).push('/') + slashed(b.drop_last()).push('/') + b.last() == slashed(a).push(
            '/',
        ) + (slashed(b.drop_last()).push('/') + b.last()));
        assert((slashed(a).push('/') + slashed(b.drop_last())).push('/') == slashed(a).push('/')
            + slashed(b.drop_last()).push('/'));
    }
}

/// No words are joined to nothing and one word to itself. Words in two parts are joined part by
/// part, with one slash between the parts.
pub proof fn law_joined_words(
    x: &Vec<String>,
    y: &Vec<String>,
    both: &Vec<String>,
    a: String,
    b: String,
    c: String,
)
    requires
        call_ensures(slash_join, (x,), a),
        call_ensures(slash_join, (y,), b),
        call_ensures(slash_join, (both,), c),
        both@ == x@ + y@,
    ensures
        x@.len() == 0 ==> a@.len() == 0,
        x@.len() == 1 ==> a@ == x@[0]@,
        x@.len() > 0 && y@.len() > 0 ==> c@ == a@.push('/') + b@,
{
    assert(texts(both@) == texts(x@) + texts(y@));
    if x@.len() > 0 && y@.len() > 0 {
        lemma_slashed_parts(texts(x@), texts(y@));
    }
}

/// Whether a character is white space.
pub open spec fn is_white(c: char) -> bool {
    let n = c as int;
    n == 9 || n == 10 || n == 11 || n == 12 || n == 13 || n == 32 || n == 133 || n == 160
        || n == 5760 || 8192 <= n <= 8202 || n == 8232 || n == 8233 || n == 8239 || n == 8287 || n == 12288
}

/// Whether a text is what another holds between the white space at its two ends.
pub open spec fn is_core_of(core: Seq<char>, s: Seq<char>, from: int, to: int) -> bool {
    &&& 0 <= from <= to <= s.len()
    &&& core == s.subrange(from, to)
    &&& forall|i: int| 0 <= i < from ==> is_white(#[trigger] s[i])
    &&& forall|i: int| to <= i < s.len() ==> is_white(#[trigger] s[i])
    &&& from < to ==> !is_white(s[from]) && !is_white(s[to - 1])
}

/// What is left without white space at the start.
proof fn lemma_trimmed_start(s: Seq<char>) -> (from: int)
    ensures
        0 <= from <= s.len(),
        trimmed_start(s) == s.skip(from),
        forall|i: int| 0 <= i < from ==> is_white(#[trigger] s[i]),
        from < s.len() ==> !is_white(s[from]),
    decreases s.len(),
{
    if s.len() > 0 && crate::text::is_space(s[0]) {
        let rest = s.skip(1);
        let k = lemma_trimmed_start(rest);
        assert(rest.skip(k) == s.skip(k + 1));
        assert forall|i: int| 0 <= i < k + 1 implies is_white(#[trigger] s[i]) by {
            if i > 0 {
                assert(s[i] == rest[i - 1]);
            }
        }
        assert(k < rest.len() ==> rest[k] == s[k + 1]);
        k + 1
    } else {
        assert(s.skip(0) == s);
        0
    }
}

/// What is left without white space at the end.
proof fn lemma_trimmed_end(s: Seq<char>) -> (to: int)
    ensures
        0 <= to <= s.len(),
        trimmed_end(s) == s.take(to),
        forall|i: int| to <= i < s.len() ==> is_white(#[trigger] s[i]),
        0 < to ==> !is_white(s[to - 1]),
    decreases s.len(),
{
    if s.len() > 0 && crate::text::is_space(s.last()) {
        let front = s.drop_last();
        let k = lemma_trimmed_end(front);
        assert(front.take(k) == s.take(k));
        assert forall|i: int| k <= i < s.len() implies is_white(#[trigger] s[i]) by {
            if i < front.len() {
                assert(s[i] == front[i]);
            }
        }
        assert(0 < k ==> front[k - 1] == s[k - 1]);
        k
    } else {
        assert(s.take(s.len() as int) == s);
        s.len() as int
    }
}

/// A trimmed text is what stands between the white space at the two ends.
proof fn lemma_trimmed(s: Seq<char>)
    ensures
        exists|from: int, to: int| is_core_of(trimmed(s), s, from, to),
{
    let from = lemma_trimmed_start(s);
    let rest = s.skip(from);
    let len = lemma_trimmed_end(rest);
    let to = from + len;
    assert(rest.take(len) == s.subrange(from, to));
    assert forall|i: int| to <= i < s.len() implies is_white(#[trigger] s[i]) by {
        assert(s[i] == rest[i - from]);
    }
    if from < to {
        assert(rest[len - 1] == s[to - 1]);
    }
    assert(is_core_of(trimmed(s), s, from, to));
}

/// Trimming takes the white space off both ends of a text, all of it and nothing else.
pub proof fn law_trimmed_text(s: &str, r: String)
    requires
        call_ensures(trim, (s,), r),
    ensures
        exists|from: int, to: int| is_core_of(r@, s@, from, to),
{
    lemma_trimmed(s@);
}

/// A payload is read where it is UTF-8, as what it spells without the white space at its two ends.
pub proof fn law_payload_is_read(payload: Vec<u8>, r: Option<String>)
    requires
        call_ensures(read_payload, (payload,), r),
    ensures
        r is Some <==> valid_utf8(payload@),
        r matches Some(text) ==> exists|from: int, to: int|
            is_core_of(text@, decode_utf8(payload@), from, to),
{
    lemma_trimmed(decode_utf8(payload@));
}

/// A message's body spells its contents in UTF-8, and copies hold what they are copies of.
pub proof fn law_copies(
    content: &String,
    body: Vec<u8>,
    text: &str,
    chars: Vec<char>,
    opt: &Option<String>,
    copy: Option<String>,
)
    requires
        call_ensures(message_body, (content,), body),
        call_ensures(chars_of, (text,), chars),
        call_ensures(clone_opt, (opt,), copy),
    ensures
        body@ == encode_utf8(content@),
        chars@ == text@,
        copy is Some <==> *opt is Some,
        copy is Some ==> copy->0@ == (*opt)->0@,
{
}

/// A message is a regular one unless something else is said.
pub proof fn law_default_kind(r: MessageType)
    requires
        call_ensures(<MessageType as Default>::default, (), r),
    ensures
        r is Regular,
{
}

/// A line feed ends what is being received, even if that is nothing. Any byte but that and the null
/// byte is added to it. A null byte ends it only after another one, and only if it is something.
pub proof fn law_bytes_are_received(s: SplitterView, b: u8)
    ensures
        ({
            let (next, ended) = after_byte(s, b);
            &&& b == 10 ==> ended == Some(s.pending) && next.pending.len() == 0 && !next.after_null
            &&& b != 10 && b != 0 ==> ended is None && next.pending == s.pending.push(b)
                && !next.after_null
            &&& b == 0 ==> next.after_null
            &&& b == 0 && s.after_null && s.pending.len() > 0 ==> ended == Some(s.pending)
                && next.pending.len() == 0
            &&& b == 0 && !(s.after_null && s.pending.len() > 0) ==> ended is None && next.pending
                == s.pending
        }),
{
}

/// A splitter starts with nothing, and at the end gives what it was receiving, if that is anything.
pub proof fn law_splitter_ends(start: Splitter, s: Splitter, r: Option<Vec<u8>>)
    requires
        call_ensures(Splitter::new, (), start),
        call_ensures(Splitter::finish, (s,), r),
    ensures
        start@.pending.len() == 0,
        !start@.after_null,
        r is Some <==> s@.pending.len() > 0,
        r is Some ==> r->0@ == s@.pending,
{
}

/// The bytes of payloads, one after the other.
pub open spec fn joined(list: Seq<Seq<u8>>) -> Seq<u8>
    decreases list.len(),
{
    if list.len() == 0 {
        seq![]
    } else {
        list[0] + joined(list.skip(1))
    }
}

/// Bytes without the line feeds and the null bytes among them.
pub open spec fn kept(bytes: Seq<u8>) -> Seq<u8>
    decreases bytes.len(),
{
    if bytes.len() == 0 {
        seq![]
    } else if bytes[0] == 10 || bytes[0] == 0 {
        kept(bytes.skip(1))
    } else {
        seq![bytes[0]] + kept(bytes.skip(1))
    }
}

/// No byte but line feeds and null bytes is lost on the way, none is added, and they stay in order:
/// what was being received and what came is what the payloads hold and what is then being received.
pub proof fn law_no_byte_is_lost(s: SplitterView, bytes: Seq<u8>)
    ensures
        joined(after_bytes(s, bytes).1) + after_bytes(s, bytes).0.pending == s.pending + kept(bytes),
    decreases bytes.len(),
{
    if bytes.len() == 0 {
        assert(joined(Seq::<Seq<u8>>::empty()) + s.pending == s.pending + kept(bytes));
    } else {
        let (next, ended) = after_byte(s, bytes[0]);
        let rest = bytes.skip(1);
        let (last, more) = after_bytes(next, rest);
        law_no_byte_is_lost(next, rest);
        let all = if_any(ended) + more;
        match ended {
            Some(p) => {
                assert(all[0] == p);
                assert(all.skip(1) == more);
                assert(p + joined(more) + last.pending == p + (joined(more) + last.pending));
                assert(next.pending + kept(rest) == kept(rest));
            },
            None => {
                assert(all == more);
                if bytes[0] != 10 && bytes[0] != 0 {
                    assert(s.pending.push(bytes[0]) + kept(rest) == s.pending + (seq![bytes[0]]
                        + kept(rest)));
                }
            },
        }
    }
}

/// The payloads of a whole stream hold its bytes in order, without the line feeds and null bytes.
pub proof fn law_payloads_hold_the_stream(body: Seq<u8>)
    ensures
        joined(payloads(body)) == kept(body),
{
    let (s, ended) = after_bytes(crate::stream::fresh(), body);
    law_no_byte_is_lost(crate::stream::fresh(), body);
    lemma_joined_parts(ended, if_any(left_over(s)));
    if s.pending.len() > 0 {
        let one = seq![s.pending];
        assert(one.skip(1) == Seq::<Seq<u8>>::empty());
        assert(joined(one) == s.pending + joined(one.skip(1)));
        assert(joined(one) == s.pending);
    }
    assert(joined(ended) + joined(if_any(left_over(s))) == joined(ended) + s.pending);
    assert(Seq::<u8>::empty() + kept(body) == kept(body));
}

/// Payloads in two parts are joined part by part.
proof fn lemma_joined_parts(a: Seq<Seq<u8>>, b: Seq<Seq<u8>>)
    ensures
        joined(a + b) == joined(a) + joined(b),
    decreases a.len(),
{
    if a.len() == 0 {
        assert(a + b == b);
        assert(joined(a) + joined(b) == joined(b));
    } else {
        lemma_joined_parts(a.skip(1), b);
        assert((a + b).skip(1) == a.skip(1) + b);
        assert(a[0] + joined(a.skip(1)) + joined(b) == a[0] + (joined(a.skip(1)) + joined(b)));
    }
}

/// The lines of a text are its first line, up to the line feed that ends it, and then the lines of
/// what comes after. A text without a line feed is one line, and an empty one has none.
pub proof fn law_lines(line: Seq<u8>, rest: Seq<u8>)
    requires
        forall|i: int| 0 <= i < line.len() ==> #[trigger] line[i] != 10,
    ensures
        lines(line) == (if line.len() == 0 {
            Seq::<Seq<u8>>::empty()
        } else {
            seq![line]
        }),
        lines(line + seq![10u8] + rest) == seq![line] + lines(rest),
{
    let body = line + seq![10u8] + rest;
    lemma_length_of_line(line, seq![]);
    assert(line + Seq::<u8>::empty() == line);
    lemma_length_of_line(line, seq![10u8] + rest);
    assert(line + (seq![10u8] + rest) == body);
    assert(body.take(line.len() as int) == line);
    assert(body.skip(line.len() as int + 1) == rest);
}

/// A line is as long as it is before the line feed, or else the end.
proof fn lemma_length_of_line(line: Seq<u8>, tail: Seq<u8>)
    requires
        forall|i: int| 0 <= i < line.len() ==> #[trigger] line[i] != 10,
        tail.len() > 0 ==> tail[0] == 10,
    ensures
        crate::stream::line_length(line + tail) == line.len(),
    decreases line.len(),
{
    if line.len() > 0 {
        let rest = line.skip(1);
        assert forall|i: int| 0 <= i < rest.len() implies #[trigger] rest[i] != 10 by {
            assert(rest[i] == line[i + 1]);
        }
        lemma_length_of_line(rest, tail);
        assert((line + tail).skip(1) == rest + tail);
        assert((line + tail)[0] == line[0]);
        assert(line[0] != 10);
    } else {
        assert(line + tail == tail);
    }
}

} // verus!
