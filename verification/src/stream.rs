//! Framing of the chat-completion event stream.
//!
//! The engine answers a streaming request with lines of text. Each complete line is
//! trimmed; empty lines are skipped; a line that starts with `data: ` carries the text
//! after every leading `data: ` (trimmed again), and the payload `[DONE]` ends the
//! framing: that line and everything after it stay in the buffer and no further
//! payload is produced. Any other non-empty line is a payload as it stands. An
//! incomplete last line waits in the buffer for the next chunk.
use vstd::prelude::*;
use vstd::utf8::*;
use crate::text::{
    law_trim, law_trim_keeps_trimmed, is_white_space, lemma_strip_offset, lemma_trim_bounds, extend_with_chars, range_starts_with, starts_with, string_from_range, strip_prefix_range,
    strip_prefix_repeated, trim, trim_range,
};

verus! {

/// The marker that introduces an event's data.
pub open spec fn data_prefix() -> Seq<char> {
    seq!['d', 'a', 't', 'a', ':', ' ']
}

/// The payload that ends the stream.
pub open spec fn done_marker() -> Seq<char> {
    seq!['[', 'D', 'O', 'N', 'E', ']']
}

/// The index of the first line feed in `s`, or -1 when there is none.
pub open spec fn newline_index(s: Seq<char>) -> int
    decreases s.len(),
{
    if s.len() == 0 {
        -1
    } else if s[0] == '\n' {
        0
    } else {
        let r = newline_index(s.drop_first());
        if r < 0 {
            -1
        } else {
            r + 1
        }
    }
}

/// A line feed index is -1 or a position in `s`.
pub proof fn lemma_newline_index_range(s: Seq<char>)
    ensures
        -1 <= newline_index(s) < s.len(),
        newline_index(s) >= 0 ==> s[newline_index(s)] == '\n',
        forall|k: int| 0 <= k < s.len() && (newline_index(s) < 0 || k < newline_index(s)) ==> s[k]
            != '\n',
    decreases s.len(),
{
    if s.len() > 0 && s[0] != '\n' {
        lemma_newline_index_range(s.drop_first());
        assert forall|k: int|
            0 <= k < s.len() && (newline_index(s) < 0 || k < newline_index(s)) implies s[k]
            != '\n' by {
            if k > 0 {
                assert(s[k] == s.drop_first()[k - 1]);
            }
        }
    }
}

/// The line feed index is the first position holding a line feed.
pub proof fn lemma_newline_index_at(s: Seq<char>, p: int)
    requires
        0 <= p <= s.len(),
        forall|k: int| 0 <= k < p ==> s[k] != '\n',
        p < s.len() ==> s[p] == '\n',
    ensures
        newline_index(s) == if p < s.len() {
            p
        } else {
            -1
        },
    decreases p,
{
    if p > 0 {
        assert forall|k: int| 0 <= k < p - 1 implies s.drop_first()[k] != '\n' by {
            assert(s.drop_first()[k] == s[k + 1]);
        }
        lemma_newline_index_at(s.drop_first(), p - 1);
    }
}

/// The payload of a trimmed, non-empty line: `None` for the end marker.
pub open spec fn line_payload(line: Seq<char>) -> Option<Seq<char>> {
    if starts_with(line, data_prefix()) {
        let payload = trim(strip_prefix_repeated(line, data_prefix()));
        if payload == done_marker() {
            None
        } else {
            Some(payload)
        }
    } else {
        Some(line)
    }
}

/// The payloads that the complete lines of `rest` give, and what stays buffered.
pub open spec fn frame(rest: Seq<char>) -> (Seq<Seq<char>>, Seq<char>)
    decreases rest.len(),
{
    let p = newline_index(rest);
    if p < 0 {
        (seq![], rest)
    } else {
        proof {
            lemma_newline_index_range(rest);
        }
        let line = trim(rest.take(p));
        let tail = rest.skip(p + 1);
        if line.len() == 0 {
            frame(tail)
        } else {
            match line_payload(line) {
                None => (seq![], rest),
                Some(payload) => {
                    let r = frame(tail);
                    (seq![payload] + r.0, r.1)
                },
            }
        }
    }
}

/// A line feed of `s` that comes before the first line feed of `y` stays the first
/// one in `s + y`.
proof fn lemma_newline_index_append(s: Seq<char>, y: Seq<char>)
    requires
        newline_index(s) >= 0,
    ensures
        newline_index(s + y) == newline_index(s),
        (s + y).take(newline_index(s)) == s.take(newline_index(s)),
        (s + y).skip(newline_index(s) + 1) == s.skip(newline_index(s) + 1) + y,
{
    lemma_newline_index_range(s);
    let p = newline_index(s);
    assert forall|k: int| 0 <= k < p implies (s + y)[k] != '\n' by {
        assert((s + y)[k] == s[k]);
    }
    lemma_newline_index_at(s + y, p);
    assert((s + y).take(p) =~= s.take(p));
    assert((s + y).skip(p + 1) =~= s.skip(p + 1) + y);
}

/// Framing does not depend on where the text was cut: framing `s + y` gives the
/// payloads of `s`, followed by those of what `s` left buffered with `y` appended,
/// and the buffer that this second framing leaves.
pub proof fn law_frame_chunking(s: Seq<char>, y: Seq<char>)
    ensures
        frame(s + y) == (frame(s).0 + frame(frame(s).1 + y).0, frame(frame(s).1 + y).1),
    decreases s.len(),
{
    lemma_newline_index_range(s);
    let p = newline_index(s);
    if p < 0 {
        assert(seq![] + frame(s + y).0 =~= frame(s + y).0);
    } else {
        lemma_newline_index_append(s, y);
        let line = trim(s.take(p));
        let tail = s.skip(p + 1);
        if line.len() == 0 {
            law_frame_chunking(tail, y);
        } else {
            match line_payload(line) {
                None => {
                    assert(seq![] + frame(s + y).0 =~= frame(s + y).0);
                },
                Some(payload) => {
                    law_frame_chunking(tail, y);
                    let r = frame(tail);
                    let q = frame(r.1 + y);
                    assert(seq![payload] + (r.0 + q.0) =~= (seq![payload] + r.0) + q.0);
                },
            }
        }
    }
}

/// What framing leaves buffered holds a line feed only when framing stopped at an
/// end marker, which is then its first line.
proof fn lemma_frame_stopped(s: Seq<char>)
    ensures
        newline_index(frame(s).1) >= 0 ==> {
            let r = frame(s).1;
            let line = trim(r.take(newline_index(r)));
            line.len() > 0 && line_payload(line) is None
        },
    decreases s.len(),
{
    lemma_newline_index_range(s);
    let p = newline_index(s);
    if p >= 0 {
        let line = trim(s.take(p));
        if line.len() == 0 || line_payload(line) is Some {
            lemma_frame_stopped(s.skip(p + 1));
        }
    }
}

/// Once an end marker has been framed, the stream is over: whatever text arrives
/// afterwards gives no payload and is only added to the buffer.
pub proof fn law_frame_done_is_final(s: Seq<char>, y: Seq<char>)
    requires
        newline_index(frame(s).1) >= 0,
    ensures
        frame(frame(s).1 + y) == (Seq::<Seq<char>>::empty(), frame(s).1 + y),
{
    lemma_frame_stopped(s);
    let r = frame(s).1;
    lemma_newline_index_append(r, y);
}

/// Pushing `a` and then `b` into a decoder that holds `buffer` gives, in total, the
/// same payloads and the same buffer as pushing `a + b` at once.
pub proof fn law_push_split(buffer: Seq<char>, a: Seq<char>, b: Seq<char>)
    ensures
        ({
            let first = frame(buffer + a);
            let second = frame(first.1 + b);
            frame(buffer + (a + b)) == (first.0 + second.0, second.1)
        }),
{
    assert(buffer + (a + b) =~= (buffer + a) + b);
    law_frame_chunking(buffer + a, b);
}

/// Whether `s` holds no line feed.
pub open spec fn no_line_feed(s: Seq<char>) -> bool {
    forall|k: int| 0 <= k < s.len() ==> s[k] != '\n'
}

/// The payload of a trimmed line without line feeds is a non-empty text without
/// line feeds.
proof fn lemma_line_payload_single(rest: Seq<char>, p: int)
    requires
        0 <= p <= rest.len(),
        no_line_feed(rest.take(p)),
        trim(rest.take(p)).len() > 0,
        line_payload(trim(rest.take(p))) is Some,
    ensures
        ({
            let q = line_payload(trim(rest.take(p)))->Some_0;
            q.len() > 0 && no_line_feed(q)
        }),
{
    let raw = rest.take(p);
    let (a, b) = lemma_trim_bounds(raw);
    let line = trim(raw);
    assert forall|k: int| 0 <= k < line.len() implies line[k] != '\n' by {
        assert(line[k] == raw[a + k]);
    }
    if starts_with(line, data_prefix()) {
        let k = lemma_strip_offset(line, data_prefix());
        let stripped = strip_prefix_repeated(line, data_prefix());
        assert(line.last() == raw[b - 1]);
        assert(is_white_space(data_prefix().last()));
        assert(stripped.last() == line.last());
        let (c, d) = lemma_trim_bounds(stripped);
        assert(!is_white_space(stripped[stripped.len() - 1]));
        let q = trim(stripped);
        assert forall|j: int| 0 <= j < q.len() implies q[j] != '\n' by {
            assert(q[j] == stripped[c + j]);
            assert(stripped[c + j] == line[k + c + j]);
        }
    }
}

/// Every payload that framing gives is a non-empty text without line feeds.
pub proof fn law_payloads_are_single_lines(s: Seq<char>)
    ensures
        forall|i: int|
            0 <= i < frame(s).0.len() ==> (#[trigger] frame(s).0[i]).len() > 0 && no_line_feed(
                frame(s).0[i],
            ),
    decreases s.len(),
{
    lemma_newline_index_range(s);
    let p = newline_index(s);
    if p >= 0 {
        let tail = s.skip(p + 1);
        let line = trim(s.take(p));
        law_payloads_are_single_lines(tail);
        if line.len() > 0 && line_payload(line) is Some {
            assert forall|k: int| 0 <= k < s.take(p).len() implies s.take(p)[k] != '\n' by {
                assert(s.take(p)[k] == s[k]);
            }
            lemma_line_payload_single(s, p);
            let q = line_payload(line)->Some_0;
            let r = frame(tail);
            assert forall|i: int| 0 <= i < frame(s).0.len() implies (
            #[trigger] frame(s).0[i]).len() > 0 && no_line_feed(frame(s).0[i]) by {
                assert(frame(s).0 == seq![q] + r.0);
                if i > 0 {
                    assert(frame(s).0[i] == r.0[i - 1]);
                }
            }
        }
    }
}

/// A line feed ends the first line of `l + "\n" + y` when `l` holds none.
proof fn lemma_first_line(l: Seq<char>, y: Seq<char>)
    requires
        no_line_feed(l),
    ensures
        newline_index(l + seq!['\n'] + y) == l.len(),
        (l + seq!['\n'] + y).take(l.len() as int) == l,
        (l + seq!['\n'] + y).skip(l.len() as int + 1) == y,
{
    let w = l + seq!['\n'] + y;
    assert forall|k: int| 0 <= k < l.len() implies w[k] != '\n' by {
        assert(w[k] == l[k]);
    }
    assert(w[l.len() as int] == '\n');
    lemma_newline_index_at(w, l.len() as int);
    assert(w.take(l.len() as int) =~= l);
    assert(w.skip(l.len() as int + 1) =~= y);
}

/// A trimmed, non-empty text begins and ends with characters other than whitespace.
proof fn lemma_trimmed_ends(p: Seq<char>)
    requires
        p.len() > 0,
        trim(p) == p,
    ensures
        !is_white_space(p[0]),
        !is_white_space(p.last()),
{
    law_trim(p);
}

/// An event line `data: P` gives the payload `P`, for every `P` that is trimmed,
/// non-empty, a single line, not itself prefixed by `data: ` and not the end
/// marker, whatever its length; the line is consumed and framing goes on with what
/// follows it.
pub proof fn law_data_line(p: Seq<char>, y: Seq<char>)
    requires
        p.len() > 0,
        trim(p) == p,
        no_line_feed(p),
        !starts_with(p, data_prefix()),
        p != done_marker(),
    ensures
        frame(data_prefix() + p + seq!['\n'] + y) == (seq![p] + frame(y).0, frame(y).1),
{
    let l = data_prefix() + p;
    assert forall|k: int| 0 <= k < l.len() implies l[k] != '\n' by {
        if k >= 6 {
            assert(l[k] == p[k - 6]);
        }
    }
    lemma_first_line(l, y);
    lemma_trimmed_ends(p);
    assert(l.last() == p.last());
    law_trim_keeps_trimmed(l);
    assert(l.take(6) =~= data_prefix());
    assert(l.skip(6) =~= p);
    assert(strip_prefix_repeated(p, data_prefix()) == p);
    assert(strip_prefix_repeated(l, data_prefix()) == p);
    assert(line_payload(l) == Some(p));
}

/// In particular, a lone event line `data: P` followed by a line feed frames into
/// exactly the payload `P`, with nothing left buffered.
pub proof fn law_single_data_line(p: Seq<char>)
    requires
        p.len() > 0,
        trim(p) == p,
        no_line_feed(p),
        !starts_with(p, data_prefix()),
        p != done_marker(),
    ensures
        frame(data_prefix() + p + seq!['\n']) == (seq![p], Seq::<char>::empty()),
{
    law_data_line(p, Seq::empty());
    assert(data_prefix() + p + seq!['\n'] + Seq::<char>::empty() =~= data_prefix() + p + seq![
        '\n',
    ]);
    assert(frame(Seq::<char>::empty()) == (Seq::<Seq<char>>::empty(), Seq::<char>::empty()));
    assert(seq![p] + Seq::<Seq<char>>::empty() =~= seq![p]);
}

/// A line without the `data: ` prefix is a payload as it stands, for every such
/// trimmed, non-empty single line.
pub proof fn law_plain_line(l: Seq<char>, y: Seq<char>)
    requires
        l.len() > 0,
        trim(l) == l,
        no_line_feed(l),
        !starts_with(l, data_prefix()),
    ensures
        frame(l + seq!['\n'] + y) == (seq![l] + frame(y).0, frame(y).1),
{
    lemma_first_line(l, y);
}

/// A line that is all whitespace gives nothing and is consumed.
pub proof fn law_blank_line(w: Seq<char>, y: Seq<char>)
    requires
        no_line_feed(w),
        forall|i: int| 0 <= i < w.len() ==> is_white_space(#[trigger] w[i]),
    ensures
        frame(w + seq!['\n'] + y) == frame(y),
{
    lemma_first_line(w, y);
    law_trim(w);
}

/// The line `data: [DONE]` ends the framing: it gives no payload, and it and
/// everything after it stay buffered.
pub proof fn law_done_line(y: Seq<char>)
    ensures
        frame(data_prefix() + done_marker() + seq!['\n'] + y) == (Seq::<Seq<char>>::empty(),
        data_prefix() + done_marker() + seq!['\n'] + y),
{
    let l = data_prefix() + done_marker();
    assert forall|k: int| 0 <= k < l.len() implies l[k] != '\n' by {}
    lemma_first_line(l, y);
    assert(l[0] == 'd');
    assert(l.last() == ']');
    law_trim_keeps_trimmed(l);
    let d = done_marker();
    assert(d[0] == '[');
    law_trim_keeps_trimmed(d);
    assert(l.take(6) =~= data_prefix());
    assert(l.skip(6) =~= d);
    assert(!starts_with(d, data_prefix())) by {
        assert(d.take(6)[0] != data_prefix()[0]);
    }
    assert(strip_prefix_repeated(d, data_prefix()) == d);
    assert(strip_prefix_repeated(l, data_prefix()) == d);
}

/// The views of a vector of strings.
pub open spec fn string_views(v: Seq<String>) -> Seq<Seq<char>> {
    v.map_values(|s: String| s@)
}

/// Decodes `bytes` as UTF-8 (`std::str::from_utf8`): `None` exactly when the bytes
/// are not well-formed UTF-8, and otherwise the decoded characters.
#[verifier::external_body]
fn utf8_str(bytes: &[u8]) -> (r: Option<&str>)
    ensures
        r is Some <==> valid_utf8(bytes@),
        r matches Some(s) ==> s@ == decode_utf8(bytes@),
{
    std::str::from_utf8(bytes).ok()
}

/// The line buffer of an event stream that is being received.
pub struct StreamDecoder {
    buffer: Vec<char>,
}

impl View for StreamDecoder {
    type V = Seq<char>;

    /// The characters received and not yet framed.
    closed spec fn view(&self) -> Seq<char> {
        self.buffer@
    }
}

impl StreamDecoder {
    /// A decoder with an empty buffer.
    pub fn new() -> (d: Self)
        ensures
            d@ == Seq::<char>::empty(),
    {
        StreamDecoder { buffer: Vec::new() }
    }

    /// Appends `text` to the buffer and returns the payloads of the lines that are
    /// now complete, keeping the rest buffered.
    pub fn push_text(&mut self, text: &str) -> (payloads: Vec<String>)
        ensures
            string_views(payloads@) == frame(old(self)@ + text@).0,
            final(self)@ == frame(old(self)@ + text@).1,
    {
        extend_with_chars(&mut self.buffer, text);
        let ghost full = self.buffer@;
        let prefix: [char; 6] = ['d', 'a', 't', 'a', ':', ' '];
        let marker: [char; 6] = ['[', 'D', 'O', 'N', 'E', ']'];
        assert(prefix@ =~= data_prefix());
        assert(marker@ =~= done_marker());
        let n = self.buffer.len();
        let mut out: Vec<String> = Vec::new();
        let mut pos: usize = 0;
        assert(full.skip(0) =~= full);
        loop
            invariant_except_break
                pos <= n,
                n == self.buffer.len(),
                self.buffer@ == full,
                prefix@ == data_prefix(),
                marker@ == done_marker(),
                frame(full) == (string_views(out@) + frame(full.skip(pos as int)).0, frame(
                    full.skip(pos as int),
                ).1),
            ensures
                pos <= n,
                self.buffer@ == full,
                frame(full) == (string_views(out@), full.skip(pos as int)),
            decreases n - pos,
        {
            let ghost rest = full.skip(pos as int);
            let mut j = pos;
            while j < n && self.buffer[j] != '\n'
                invariant
                    pos <= j <= n,
                    n == self.buffer.len(),
                    self.buffer@ == full,
                    forall|k: int| pos <= k < j ==> full[k] != '\n',
                decreases n - j,
            {
                j = j + 1;
            }
            proof {
                assert forall|k: int| 0 <= k < j - pos implies rest[k] != '\n' by {
                    assert(rest[k] == full[pos + k]);
                }
                lemma_newline_index_at(rest, j - pos);
            }
            if j == n {
                assert(string_views(out@) + seq![] =~= string_views(out@));
                break;
            }
            assert(rest.take(j - pos) =~= full.subrange(pos as int, j as int));
            assert(rest.skip(j - pos + 1) =~= full.skip(j + 1));
            let (a, b) = trim_range(&self.buffer, pos, j);
            if a < b {
                let is_data = range_starts_with(&self.buffer, a, b, &prefix);
                if is_data {
                    let c = strip_prefix_range(&self.buffer, a, b, &prefix);
                    let (d, e) = trim_range(&self.buffer, c, b);
                    let is_done = e - d == 6 && range_starts_with(&self.buffer, d, e, &marker);
                    proof {
                        if e - d == 6 {
                            assert(full.subrange(d as int, e as int).take(6) =~= full.subrange(
                                d as int,
                                e as int,
                            ));
                        }
                    }
                    if is_done {
                        assert(string_views(out@) + seq![] =~= string_views(out@));
                        break;
                    }
                    let payload = string_from_range(&self.buffer, d, e);
                    let ghost before = out@;
                    out.push(payload);
                    assert(string_views(out@) =~= string_views(before) + seq![payload@]);
                } else {
                    let payload = string_from_range(&self.buffer, a, b);
                    let ghost before = out@;
                    out.push(payload);
                    assert(string_views(out@) =~= string_views(before) + seq![payload@]);
                }
            }
            pos = j + 1;
        }
        let tail = self.buffer.split_off(pos);
        self.buffer = tail;
        assert(self.buffer@ =~= full.skip(pos as int));
        out
    }

    /// Decodes `chunk` as UTF-8 and frames it as [`StreamDecoder::push_text`] does;
    /// a chunk that is not well-formed UTF-8 is dropped and changes nothing.
    pub fn push_bytes(&mut self, chunk: &[u8]) -> (payloads: Vec<String>)
        ensures
            valid_utf8(chunk@) ==> string_views(payloads@) == frame(
                old(self)@ + decode_utf8(chunk@),
            ).0 && final(self)@ == frame(old(self)@ + decode_utf8(chunk@)).1,
            !valid_utf8(chunk@) ==> payloads@.len() == 0 && final(self)@ == old(self)@,
    {
        match utf8_str(chunk) {
            Some(text) => self.push_text(text),
            None => Vec::new(),
        }
    }

    /// Ends the stream: the buffered characters, when there are any, are the last
    /// candidate payload, taken as they stand.
    pub fn finish(self) -> (rest: Option<String>)
        ensures
            rest is Some <==> self@.len() > 0,
            rest matches Some(s) ==> s@ == self@,
    {
        if self.buffer.len() > 0 {
            let s = string_from_range(&self.buffer, 0, self.buffer.len());
            assert(self.buffer@.subrange(0, self.buffer@.len() as int) =~= self.buffer@);
            Some(s)
        } else {
            None
        }
    }
}

} // verus!
