//! Incremental decoding of the two streaming wire dialects.
//!
//! Network chunks do not align with line boundaries, so a [`LineScanner`]
//! buffers the partial trailing line across chunks and hands out only
//! complete lines.  On top of it, [`StreamDecoder`] interprets each complete
//! line according to the provider dialect: Server-Sent-Events frames
//! (`data: <json>` lines ended by a `data: [DONE]` marker) or
//! newline-delimited JSON objects carrying a `response` field.

use crate::util::{bytes_eq, has_prefix, starts_with, trim, trimmed};
use vstd::prelude::*;
use vstd::slice::slice_subrange;
use vstd::string::StringExecFns;

verus! {

/// Split a byte stream into the complete lines seen so far (separator `\n`,
/// not included in the lines) and the trailing bytes after the last
/// separator.
pub open spec fn scan(s: Seq<u8>) -> (Seq<Seq<u8>>, Seq<u8>)
    decreases s.len(),
{
    if s.len() == 0 {
        (Seq::empty(), Seq::empty())
    } else {
        let prev = scan(s.drop_last());
        if s.last() == 10u8 {
            (prev.0.push(prev.1), Seq::<u8>::empty())
        } else {
            (prev.0, prev.1.push(s.last()))
        }
    }
}

/// The views of a vector of byte vectors.
pub open spec fn views(lines: Seq<Vec<u8>>) -> Seq<Seq<u8>> {
    lines.map_values(|v: Vec<u8>| v@)
}

/// Buffers bytes fed in arbitrary chunks and yields complete lines.
pub struct LineScanner {
    pending: Vec<u8>,
    consumed: Ghost<Seq<u8>>,
}

impl LineScanner {
    /// All bytes fed so far.
    pub closed spec fn consumed(&self) -> Seq<u8> {
        self.consumed@
    }

    /// The buffered partial line is exactly the tail of the fed bytes.
    pub closed spec fn wf(&self) -> bool {
        self.pending@ == scan(self.consumed@).1
    }

    pub fn new() -> (r: LineScanner)
        ensures
            r.wf(),
            r.consumed() == Seq::<u8>::empty(),
    {
        LineScanner { pending: Vec::new(), consumed: Ghost(Seq::empty()) }
    }

    /// Feed one chunk; the returned lines are exactly the complete lines that
    /// the chunk finished, in order.
    pub fn feed(&mut self, chunk: &[u8]) -> (lines: Vec<Vec<u8>>)
        requires
            old(self).wf(),
        ensures
            final(self).wf(),
            final(self).consumed() == old(self).consumed() + chunk@,
            scan(final(self).consumed()).0 == scan(old(self).consumed()).0 + views(lines@),
    {
        let ghost base = self.consumed@;
        let mut lines: Vec<Vec<u8>> = Vec::new();
        let mut i: usize = 0;
        while i < chunk.len()
            invariant
                0 <= i <= chunk@.len(),
                self.consumed@ == base + chunk@.subrange(0, i as int),
                self.pending@ == scan(self.consumed@).1,
                scan(self.consumed@).0 == scan(base).0 + views(lines@),
            decreases chunk@.len() - i,
        {
            let b = chunk[i];
            let ghost before = self.consumed@;
            proof {
                assert((before + seq![b]).drop_last() =~= before);
                assert(base + chunk@.subrange(0, i + 1) =~= before + seq![b]);
            }
            self.consumed = Ghost(self.consumed@ + seq![b]);
            if b == 10 {
                let mut line: Vec<u8> = Vec::new();
                core::mem::swap(&mut line, &mut self.pending);
                proof {
                    assert(views(lines@.push(line)) =~= views(lines@).push(line@));
                    assert(scan(self.consumed@).0 =~= scan(base).0 + views(lines@.push(line)));
                }
                lines.push(line);
            } else {
                self.pending.push(b);
            }
            i = i + 1;
        }
        proof {
            assert(base + chunk@.subrange(0, chunk@.len() as int) =~= base + chunk@);
        }
        lines
    }
}

/// What one Server-Sent-Events JSON frame contributes: the value of
/// `choices[0].delta.content`, if the frame parses and carries one.
pub uninterp spec fn sse_delta_content(frame: Seq<u8>) -> Option<Seq<char>>;

/// Relies on `serde_json::from_slice` and `serde_json::Value::{get, as_str}`:
/// parses one SSE frame and reads `choices[0].delta.content`.  The result is
/// a function of the frame bytes alone.
#[verifier::external_body]
fn sse_delta_of(frame: &[u8]) -> (r: Option<String>)
    ensures
        match r {
            Some(s) => sse_delta_content(frame@) == Some(s@),
            None => sse_delta_content(frame@) is None,
        },
{
    match serde_json::from_slice::<serde_json::Value>(frame) {
        Ok(v) => v
            .get("choices")
            .and_then(|c| c.get(0))
            .and_then(|c| c.get("delta"))
            .and_then(|d| d.get("content"))
            .and_then(|s| s.as_str())
            .map(|s| s.to_string()),
        Err(_) => None,
    }
}

/// What one line of a native-dialect stream contributes: the value of the
/// `response` field, if the line parses as a JSON object and carries one.
pub uninterp spec fn ndjson_response(line: Seq<u8>) -> Option<Seq<char>>;

/// Relies on `serde_json::from_slice` and `serde_json::Value::{get, as_str}`:
/// parses one newline-delimited JSON object and reads its `response` field.
/// The result is a function of the line bytes alone.
#[verifier::external_body]
fn ndjson_response_of(line: &[u8]) -> (r: Option<String>)
    ensures
        match r {
            Some(s) => ndjson_response(line@) == Some(s@),
            None => ndjson_response(line@) is None,
        },
{
    match serde_json::from_slice::<serde_json::Value>(line) {
        Ok(v) => v.get("response").and_then(|s| s.as_str()).map(|s| s.to_string()),
        Err(_) => None,
    }
}

/// The bytes of `data: `, the SSE frame introducer.
pub open spec fn data_prefix() -> Seq<u8> {
    seq![100u8, 97u8, 116u8, 97u8, 58u8, 32u8]
}

/// The bytes of `[DONE]`, the SSE completion marker payload.
pub open spec fn done_marker() -> Seq<u8> {
    seq![91u8, 68u8, 79u8, 78u8, 69u8, 93u8]
}

fn data_prefix_vec() -> (v: Vec<u8>)
    ensures
        v@ == data_prefix(),
{
    let mut v: Vec<u8> = Vec::new();
    v.push(100);
    v.push(97);
    v.push(116);
    v.push(97);
    v.push(58);
    v.push(32);
    proof {
        assert(v@ =~= data_prefix());
    }
    v
}

fn done_marker_vec() -> (v: Vec<u8>)
    ensures
        v@ == done_marker(),
{
    let mut v: Vec<u8> = Vec::new();
    v.push(91);
    v.push(68);
    v.push(79);
    v.push(78);
    v.push(69);
    v.push(93);
    proof {
        assert(v@ =~= done_marker());
    }
    v
}

/// The trimmed line is an SSE completion marker frame.
pub open spec fn sse_line_is_done(line: Seq<u8>) -> bool {
    &&& has_prefix(trimmed(line), data_prefix())
    &&& trimmed(line).skip(data_prefix().len() as int) == done_marker()
}

/// The fragment one SSE line contributes, if any.  Lines that do not carry a
/// `data: ` frame, and frames without an incremental content field,
/// contribute nothing.
pub open spec fn sse_line_fragment(line: Seq<u8>) -> Option<Seq<char>> {
    let t = trimmed(line);
    if has_prefix(t, data_prefix()) {
        sse_delta_content(t.skip(data_prefix().len() as int))
    } else {
        None
    }
}

/// The fragment one native-dialect line contributes, if any.  Blank lines
/// contribute nothing.
pub open spec fn ndjson_line_fragment(line: Seq<u8>) -> Option<Seq<char>> {
    let t = trimmed(line);
    if t.len() == 0 {
        None
    } else {
        ndjson_response(t)
    }
}

/// Fold an SSE line sequence into the fragments emitted, in order, and
/// whether the completion marker has been seen.  Lines after the marker
/// contribute nothing.
pub open spec fn sse_out(lines: Seq<Seq<u8>>) -> (Seq<Seq<char>>, bool)
    decreases lines.len(),
{
    if lines.len() == 0 {
        (Seq::empty(), false)
    } else {
        let prev = sse_out(lines.drop_last());
        if prev.1 {
            prev
        } else if sse_line_is_done(lines.last()) {
            (prev.0, true)
        } else {
            match sse_line_fragment(lines.last()) {
                Some(f) => (prev.0.push(f), false),
                None => prev,
            }
        }
    }
}

/// Fold a native-dialect line sequence into the fragments emitted, in order.
pub open spec fn ndjson_out(lines: Seq<Seq<u8>>) -> Seq<Seq<char>>
    decreases lines.len(),
{
    if lines.len() == 0 {
        Seq::empty()
    } else {
        let prev = ndjson_out(lines.drop_last());
        match ndjson_line_fragment(lines.last()) {
            Some(f) => prev.push(f),
            None => prev,
        }
    }
}

/// Which wire dialect a stream is decoded under.
pub enum Dialect {
    Sse,
    Ndjson,
}

/// The fragments a dialect yields from the complete lines of `lines`.
pub open spec fn frags_of_lines(d: Dialect, lines: Seq<Seq<u8>>) -> Seq<Seq<char>> {
    match d {
        Dialect::Sse => sse_out(lines).0,
        Dialect::Ndjson => ndjson_out(lines),
    }
}

/// Whether a dialect has seen its completion marker in `lines`.  The native
/// dialect has none.
pub open spec fn done_of_lines(d: Dialect, lines: Seq<Seq<u8>>) -> bool {
    match d {
        Dialect::Sse => sse_out(lines).1,
        Dialect::Ndjson => false,
    }
}

/// The fragments a dialect yields from a raw byte stream: only the complete
/// lines count; the unterminated tail contributes nothing.
pub open spec fn stream_fragments(d: Dialect, s: Seq<u8>) -> Seq<Seq<char>> {
    frags_of_lines(d, scan(s).0)
}

/// The views of a vector of fragments.
pub open spec fn str_views(frags: Seq<String>) -> Seq<Seq<char>> {
    frags.map_values(|s: String| s@)
}

/// The concatenation of a fragment sequence, in order.
pub open spec fn concat_all(frags: Seq<Seq<char>>) -> Seq<char>
    decreases frags.len(),
{
    if frags.len() == 0 {
        Seq::empty()
    } else {
        concat_all(frags.drop_last()) + frags.last()
    }
}

/// The incremental content field of one SSE frame, taken as empty where the
/// line carries none.
pub open spec fn sse_frame_content(line: Seq<u8>) -> Seq<char> {
    match sse_line_fragment(line) {
        Some(f) => f,
        None => Seq::empty(),
    }
}

/// The `response` field of one native-dialect line, taken as empty where the
/// line carries none.
pub open spec fn ndjson_line_content(line: Seq<u8>) -> Seq<char> {
    match ndjson_line_fragment(line) {
        Some(f) => f,
        None => Seq::empty(),
    }
}

proof fn lemma_sse_before_done(lines: Seq<Seq<u8>>)
    requires
        forall|i: int| 0 <= i < lines.len() ==> !sse_line_is_done(#[trigger] lines[i]),
    ensures
        !sse_out(lines).1,
        concat_all(sse_out(lines).0) == concat_all(
            lines.map_values(|l: Seq<u8>| sse_frame_content(l)),
        ),
    decreases lines.len(),
{
    let contents = lines.map_values(|l: Seq<u8>| sse_frame_content(l));
    if lines.len() == 0 {
        assert(contents =~= Seq::<Seq<char>>::empty());
    } else {
        let prefix = lines.drop_last();
        let l = lines.last();
        lemma_sse_before_done(prefix);
        let pc = prefix.map_values(|x: Seq<u8>| sse_frame_content(x));
        assert(contents =~= pc.push(sse_frame_content(l)));
        assert(contents.drop_last() =~= pc);
        match sse_line_fragment(l) {
            Some(f) => {
                assert(sse_out(lines).0 == sse_out(prefix).0.push(f));
                assert(sse_out(lines).0.drop_last() =~= sse_out(prefix).0);
            },
            None => {
                assert(concat_all(contents) =~= concat_all(pc) + Seq::<char>::empty());
                assert(concat_all(pc) + Seq::<char>::empty() =~= concat_all(pc));
            },
        }
    }
}

/// Law: over any well-formed SSE stream — a sequence of frames none of which
/// is the completion marker, followed by the marker — the concatenation of
/// the emitted fragments equals the concatenation, in arrival order, of
/// every frame's incremental content field.
pub proof fn lemma_sse_concat(lines: Seq<Seq<u8>>, done_line: Seq<u8>)
    requires
        forall|i: int| 0 <= i < lines.len() ==> !sse_line_is_done(#[trigger] lines[i]),
        sse_line_is_done(done_line),
    ensures
        sse_out(lines.push(done_line)).1,
        concat_all(sse_out(lines.push(done_line)).0) == concat_all(
            lines.map_values(|l: Seq<u8>| sse_frame_content(l)),
        ),
{
    lemma_sse_before_done(lines);
    assert(lines.push(done_line).drop_last() =~= lines);
}

/// Law: over any native-dialect stream, the concatenation of the emitted
/// fragments equals the concatenation, in line order, of every line's
/// `response` field.
pub proof fn lemma_ndjson_concat(lines: Seq<Seq<u8>>)
    ensures
        concat_all(ndjson_out(lines)) == concat_all(
            lines.map_values(|l: Seq<u8>| ndjson_line_content(l)),
        ),
    decreases lines.len(),
{
    let contents = lines.map_values(|l: Seq<u8>| ndjson_line_content(l));
    if lines.len() == 0 {
        assert(contents =~= Seq::<Seq<char>>::empty());
    } else {
        let prefix = lines.drop_last();
        let l = lines.last();
        lemma_ndjson_concat(prefix);
        let pc = prefix.map_values(|x: Seq<u8>| ndjson_line_content(x));
        assert(contents =~= pc.push(ndjson_line_content(l)));
        assert(contents.drop_last() =~= pc);
        match ndjson_line_fragment(l) {
            Some(f) => {
                assert(ndjson_out(lines) == ndjson_out(prefix).push(f));
                assert(ndjson_out(lines).drop_last() =~= ndjson_out(prefix));
            },
            None => {
                assert(concat_all(contents) =~= concat_all(pc) + Seq::<char>::empty());
                assert(concat_all(pc) + Seq::<char>::empty() =~= concat_all(pc));
            },
        }
    }
}

/// Law: the fragments of a stream do not depend on where the byte stream is
/// cut into chunks.  Together with [`StreamDecoder::feed`], whose
/// postcondition makes the emitted fragments a function of the fed bytes
/// alone, this says that feeding a stream in any two consecutive pieces
/// yields the same fragments as feeding it whole.
pub proof fn lemma_chunking_irrelevant(d: Dialect, s: Seq<u8>, i: int)
    requires
        0 <= i <= s.len(),
    ensures
        stream_fragments(d, s.subrange(0, i) + s.subrange(i, s.len() as int)) == stream_fragments(
            d,
            s,
        ),
{
    assert(s.subrange(0, i) + s.subrange(i, s.len() as int) =~= s);
}

/// Decodes one provider byte stream incrementally: feed chunks as they
/// arrive, collect the text fragments they complete.
pub struct StreamDecoder {
    dialect: Dialect,
    scanner: LineScanner,
    done: bool,
    text: String,
}

impl StreamDecoder {
    /// All bytes fed so far.
    pub closed spec fn consumed(&self) -> Seq<u8> {
        self.scanner.consumed()
    }

    pub closed spec fn dialect(&self) -> Dialect {
        self.dialect
    }

    /// The fragments emitted so far, as a function of the fed bytes.
    pub open spec fn fragments(&self) -> Seq<Seq<char>> {
        stream_fragments(self.dialect(), self.consumed())
    }

    pub closed spec fn wf(&self) -> bool {
        &&& self.scanner.wf()
        &&& self.done == done_of_lines(self.dialect, scan(self.scanner.consumed()).0)
        &&& self.text@ == concat_all(self.fragments())
    }

    pub fn new(dialect: Dialect) -> (r: StreamDecoder)
        ensures
            r.wf(),
            r.dialect() == dialect,
            r.consumed() == Seq::<u8>::empty(),
            r.fragments() == Seq::<Seq<char>>::empty(),
    {
        let r = StreamDecoder {
            dialect,
            scanner: LineScanner::new(),
            done: false,
            text: String::new(),
        };
        proof {
            assert(scan(Seq::<u8>::empty()).0 =~= Seq::<Seq<u8>>::empty());
            assert(r.fragments() =~= Seq::<Seq<char>>::empty());
        }
        r
    }

    /// Feed one network chunk.  The returned fragments are exactly the new
    /// ones the chunk completed, in arrival order; the decoder's fragment
    /// history grows by exactly them.
    pub fn feed(&mut self, chunk: &[u8]) -> (out: Vec<String>)
        requires
            old(self).wf(),
        ensures
            final(self).wf(),
            final(self).dialect() == old(self).dialect(),
            final(self).consumed() == old(self).consumed() + chunk@,
            final(self).fragments() == old(self).fragments() + str_views(out@),
    {
        let ghost base_lines = scan(self.scanner.consumed()).0;
        let lines = self.scanner.feed(chunk);
        let ghost newc = self.scanner.consumed();
        let ghost all_lines = scan(newc).0;
        let mut out: Vec<String> = Vec::new();
        let mut i: usize = 0;
        while i < lines.len()
            invariant
                0 <= i <= lines@.len(),
                self.scanner.wf(),
                self.scanner.consumed() == newc,
                newc == old(self).consumed() + chunk@,
                self.dialect == old(self).dialect(),
                all_lines == scan(newc).0,
                all_lines == base_lines + views(lines@),
                self.done == done_of_lines(self.dialect, base_lines + views(
                    lines@.subrange(0, i as int),
                )),
                frags_of_lines(self.dialect, base_lines + views(lines@.subrange(0, i as int)))
                    == frags_of_lines(self.dialect, base_lines) + str_views(out@),
                self.text@ == concat_all(
                    frags_of_lines(self.dialect, base_lines + views(lines@.subrange(0, i as int))),
                ),
            decreases lines@.len() - i,
        {
            let ghost cur = base_lines + views(lines@.subrange(0, i as int));
            let ghost next = base_lines + views(lines@.subrange(0, i + 1 as int));
            proof {
                assert(views(lines@.subrange(0, i + 1 as int)) =~= views(
                    lines@.subrange(0, i as int),
                ).push(lines@[i as int]@));
                assert(next =~= cur.push(lines@[i as int]@));
                assert(next.drop_last() =~= cur);
            }
            let line = &lines[i];
            if !self.done {
                let frag = match self.dialect {
                    Dialect::Sse => {
                        let t = trim(line.as_slice());
                        let prefix = data_prefix_vec();
                        if starts_with(t.as_slice(), prefix.as_slice()) {
                            let payload = slice_subrange(t.as_slice(), 6, t.len());
                            proof {
                                assert(payload@ =~= trimmed(line@).skip(data_prefix().len() as int));
                            }
                            let marker = done_marker_vec();
                            if bytes_eq(payload, marker.as_slice()) {
                                self.done = true;
                                None
                            } else {
                                sse_delta_of(payload)
                            }
                        } else {
                            None
                        }
                    },
                    Dialect::Ndjson => {
                        let t = trim(line.as_slice());
                        if t.len() == 0 {
                            None
                        } else {
                            ndjson_response_of(t.as_slice())
                        }
                    },
                };
                if let Some(f) = frag {
                    proof {
                        assert(str_views(out@.push(f)) =~= str_views(out@).push(f@));
                        let fs = frags_of_lines(self.dialect, cur);
                        assert(fs.push(f@).drop_last() =~= fs);
                    }
                    self.text.append(f.as_str());
                    out.push(f);
                }
            }
            i = i + 1;
        }
        proof {
            assert(lines@.subrange(0, lines@.len() as int) =~= lines@);
        }
        out
    }

    /// Hand back the whole decoded text: the concatenation, in order, of
    /// every fragment emitted.
    pub fn into_text(self) -> (r: String)
        requires
            self.wf(),
        ensures
            r@ == concat_all(self.fragments()),
    {
        self.text
    }

    /// Whether the dialect's completion marker has been seen.
    pub fn is_done(&self) -> (r: bool)
        requires
            self.wf(),
        ensures
            r == done_of_lines(self.dialect(), scan(self.consumed()).0),
    {
        self.done
    }
}

} // verus!
