//! The incremental wire-event decoder.
//!
//! The backend delivers its response as raw byte chunks of arbitrary,
//! unaligned size. The decoder buffers bytes, cuts them at line terminators,
//! and turns each line that carries the event prefix into protocol events:
//! text deltas on two channels, tool-call fragments, a completion marker for
//! the turn's tool calls, and the end-of-stream sentinel. Lines without the
//! prefix and payloads that do not parse are dropped without error.
//!
//! The whole byte-to-event function is modelled by [`feed_bytes`], and
//! [`lemma_chunking_invariance`] shows that cutting the input into chunks in
//! any way yields the same events as decoding it in one piece.

use vstd::prelude::*;

use crate::args::{arg_model, model_get, model_get_str, ArgModel, ArgValue};
use crate::json::{json_arg_of_bytes, parse_json_bytes};

verus! {

/// Which text channel a delta belongs to: answer text, or the backend's
/// interim reasoning text.
#[derive(Debug, Clone, Copy, PartialEq, Eq, Structural)]
pub enum Channel {
    Primary,
    Reasoning,
}

/// One decoded protocol event.
#[derive(Debug, PartialEq, Eq)]
pub enum WireEvent {
    /// A piece of text on one of the two channels.
    TextDelta { channel: Channel, text: String },
    /// A piece of one tool call, keyed by its delivery index.
    ToolCallFragment { index: u64, id: Option<String>, name: Option<String>, args_piece: String },
    /// The turn's completion signal: the buffered tool calls are complete.
    ToolCallsComplete,
    /// The stream's sentinel: no further event follows.
    Done,
}

/// The model of a [`WireEvent`].
pub enum EventModel {
    TextDelta { channel: Channel, text: Seq<char> },
    ToolCallFragment {
        index: u64,
        id: Option<Seq<char>>,
        name: Option<Seq<char>>,
        args_piece: Seq<char>,
    },
    ToolCallsComplete,
    Done,
}

/// The model of optional text.
pub open spec fn opt_text_model(o: Option<String>) -> Option<Seq<char>> {
    match o {
        Some(s) => Some(s@),
        None => None,
    }
}

impl View for WireEvent {
    type V = EventModel;

    open spec fn view(&self) -> EventModel {
        match self {
            WireEvent::TextDelta { channel, text } => EventModel::TextDelta {
                channel: *channel,
                text: text@,
            },
            WireEvent::ToolCallFragment { index, id, name, args_piece } => {
                EventModel::ToolCallFragment {
                    index: *index,
                    id: opt_text_model(*id),
                    name: opt_text_model(*name),
                    args_piece: args_piece@,
                }
            },
            WireEvent::ToolCallsComplete => EventModel::ToolCallsComplete,
            WireEvent::Done => EventModel::Done,
        }
    }
}

/// The models of an event list, in order.
pub open spec fn events_model(s: Seq<WireEvent>) -> Seq<EventModel> {
    Seq::new(s.len(), |i: int| s[i]@)
}

/// The bytes of the event prefix `"data: "`.
pub open spec fn data_prefix() -> Seq<u8> {
    seq![100u8, 97u8, 116u8, 97u8, 58u8, 32u8]
}

/// The bytes of the sentinel payload `"[DONE]"`.
pub open spec fn done_sentinel() -> Seq<u8> {
    seq![91u8, 68u8, 79u8, 78u8, 69u8, 93u8]
}

/// The bytes of the bare sentinel payload `"DONE"`, accepted as well.
pub open spec fn done_sentinel_bare() -> Seq<u8> {
    seq![68u8, 79u8, 78u8, 69u8]
}

/// Whether a line begins with the event prefix.
pub open spec fn is_data_line(line: Seq<u8>) -> bool {
    line.len() >= 6 && line.subrange(0, 6) == data_prefix()
}

/// The payload of a data line: everything after the prefix.
pub open spec fn line_payload(line: Seq<u8>) -> Seq<u8> {
    line.subrange(6, line.len() as int)
}

/// Whether a payload is the stream's sentinel value.
pub open spec fn is_done_payload(p: Seq<u8>) -> bool {
    p == done_sentinel() || p == done_sentinel_bare()
}

/// The delivery index carried by one tool-call array entry; entries without
/// a usable index default to index zero.
pub open spec fn fragment_index(e: ArgModel) -> u64 {
    match model_get(e, "index"@) {
        Some(f) => match f {
            ArgModel::Int(i) => if 0 <= i {
                i as u64
            } else {
                0
            },
            _ => 0,
        },
        None => 0,
    }
}

/// The fragment event carried by one tool-call array entry.
pub open spec fn fragment_of(e: ArgModel) -> EventModel {
    EventModel::ToolCallFragment {
        index: fragment_index(e),
        id: model_get_str(e, "id"@),
        name: match model_get(e, "function"@) {
            Some(f) => model_get_str(f, "name"@),
            None => None,
        },
        args_piece: match model_get(e, "function"@) {
            Some(f) => match model_get_str(f, "arguments"@) {
                Some(s) => s,
                None => Seq::empty(),
            },
            None => Seq::empty(),
        },
    }
}

/// The text delta of the reasoning channel, where the delta object carries
/// non-empty reasoning text.
pub open spec fn reasoning_events(d: ArgModel) -> Seq<EventModel> {
    match model_get_str(d, "reasoning_content"@) {
        Some(s) => if s.len() > 0 {
            seq![EventModel::TextDelta { channel: Channel::Reasoning, text: s }]
        } else {
            Seq::empty()
        },
        None => Seq::empty(),
    }
}

/// The text delta of the primary channel, where the delta object carries
/// non-empty content text.
pub open spec fn content_events(d: ArgModel) -> Seq<EventModel> {
    match model_get_str(d, "content"@) {
        Some(s) => if s.len() > 0 {
            seq![EventModel::TextDelta { channel: Channel::Primary, text: s }]
        } else {
            Seq::empty()
        },
        None => Seq::empty(),
    }
}

/// One fragment event per entry of the delta's tool-call array.
pub open spec fn fragment_events(d: ArgModel) -> Seq<EventModel> {
    match model_get(d, "tool_calls"@) {
        Some(t) => match t {
            ArgModel::Arr(entries) => Seq::new(entries.len(), |i: int| fragment_of(entries[i])),
            _ => Seq::empty(),
        },
        None => Seq::empty(),
    }
}

/// The completion marker, where the first choice's finish reason says that
/// the turn requested tool calls.
pub open spec fn completion_events(c0: ArgModel) -> Seq<EventModel> {
    if model_get_str(c0, "finish_reason"@) == Some("tool_calls"@) {
        seq![EventModel::ToolCallsComplete]
    } else {
        Seq::empty()
    }
}

/// The events carried by the first choice of a payload: its delta's text on
/// both channels, its delta's tool-call fragments, then its completion
/// marker.
pub open spec fn choice_events(c0: ArgModel) -> Seq<EventModel> {
    (match model_get(c0, "delta"@) {
        Some(d) => reasoning_events(d) + content_events(d) + fragment_events(d),
        None => Seq::empty(),
    }) + completion_events(c0)
}

/// The events carried by one parsed payload: those of its first choice, or
/// none where the payload has no non-empty choice array.
pub open spec fn payload_events(m: ArgModel) -> Seq<EventModel> {
    match model_get(m, "choices"@) {
        Some(c) => match c {
            ArgModel::Arr(cs) => if cs.len() > 0 {
                choice_events(cs[0])
            } else {
                Seq::empty()
            },
            _ => Seq::empty(),
        },
        None => Seq::empty(),
    }
}

/// The events carried by one complete line: none without the event prefix,
/// the end sentinel, or the events of the parsed payload; a payload that
/// does not parse is dropped.
pub open spec fn line_events(line: Seq<u8>) -> Seq<EventModel> {
    if !is_data_line(line) {
        Seq::empty()
    } else if is_done_payload(line_payload(line)) {
        seq![EventModel::Done]
    } else {
        match json_arg_of_bytes(line_payload(line)) {
            Some(m) => payload_events(m),
            None => Seq::empty(),
        }
    }
}

/// Whether a line ends the stream: the sentinel line does, and the decoder
/// then performs no further work.
pub open spec fn line_marks_done(line: Seq<u8>) -> bool {
    is_data_line(line) && is_done_payload(line_payload(line))
}

/// The decoder's model: the buffered bytes of the unfinished line, and
/// whether the sentinel has been seen.
pub struct DecoderModel {
    pub buf: Seq<u8>,
    pub done: bool,
}

/// The decoder's starting model.
pub open spec fn init_decoder() -> DecoderModel {
    DecoderModel { buf: Seq::empty(), done: false }
}

/// One byte of input: ignored after the sentinel; a line terminator closes
/// and processes the buffered line; any other byte is buffered.
pub open spec fn feed_byte(s: DecoderModel, b: u8) -> (DecoderModel, Seq<EventModel>) {
    if s.done {
        (s, Seq::empty())
    } else if b == 10 {
        (DecoderModel { buf: Seq::empty(), done: line_marks_done(s.buf) }, line_events(s.buf))
    } else {
        (DecoderModel { buf: s.buf.push(b), done: false }, Seq::empty())
    }
}

/// A byte sequence of input, fed byte by byte; the produced events are
/// concatenated in order.
pub open spec fn feed_bytes(s: DecoderModel, bytes: Seq<u8>) -> (DecoderModel, Seq<EventModel>)
    decreases bytes.len(),
{
    if bytes.len() == 0 {
        (s, Seq::empty())
    } else {
        let r1 = feed_byte(s, bytes[0]);
        let r2 = feed_bytes(r1.0, bytes.drop_first());
        (r2.0, r1.1 + r2.1)
    }
}

/// End of input: a non-empty unterminated residual is treated as one final
/// line; afterwards the decoder performs no further work.
pub open spec fn finish_events(s: DecoderModel) -> Seq<EventModel> {
    if s.done || s.buf.len() == 0 {
        Seq::empty()
    } else {
        line_events(s.buf)
    }
}

/// Feeding `a ++ b` equals feeding `a`, then feeding `b` from the state that
/// `a` left, with the events concatenated.
pub proof fn lemma_feed_bytes_append(s: DecoderModel, a: Seq<u8>, b: Seq<u8>)
    ensures
        ({
            let ra = feed_bytes(s, a);
            let rb = feed_bytes(ra.0, b);
            feed_bytes(s, a + b) == (rb.0, ra.1 + rb.1)
        }),
    decreases a.len(),
{
    let ra = feed_bytes(s, a);
    let rb = feed_bytes(ra.0, b);
    if a.len() == 0 {
        assert(a + b =~= b);
        assert(ra.1 + rb.1 =~= rb.1);
    } else {
        let r1 = feed_byte(s, a[0]);
        assert((a + b)[0] == a[0]);
        assert((a + b).drop_first() =~= a.drop_first() + b);
        lemma_feed_bytes_append(r1.0, a.drop_first(), b);
        let ra2 = feed_bytes(r1.0, a.drop_first());
        let rb2 = feed_bytes(ra2.0, b);
        assert(r1.1 + (ra2.1 + rb2.1) =~= (r1.1 + ra2.1) + rb2.1);
    }
}

/// The concatenation of a sequence of chunks.
pub open spec fn concat_chunks(chunks: Seq<Seq<u8>>) -> Seq<u8>
    decreases chunks.len(),
{
    if chunks.len() == 0 {
        Seq::empty()
    } else {
        chunks[0] + concat_chunks(chunks.drop_first())
    }
}

/// Feeding a sequence of chunks, one after the other.
pub open spec fn feed_chunks(s: DecoderModel, chunks: Seq<Seq<u8>>) -> (DecoderModel, Seq<
    EventModel,
>)
    decreases chunks.len(),
{
    if chunks.len() == 0 {
        (s, Seq::empty())
    } else {
        let r1 = feed_bytes(s, chunks[0]);
        let r2 = feed_chunks(r1.0, chunks.drop_first());
        (r2.0, r1.1 + r2.1)
    }
}

/// Fragmentation invariance: decoding a byte stream cut into chunks at any
/// set of boundaries leaves the decoder in the same state and produces the
/// identical ordered event sequence as decoding it in one piece. Since the
/// states agree, the events of the final unterminated residual agree too.
pub proof fn lemma_chunking_invariance(s: DecoderModel, chunks: Seq<Seq<u8>>)
    ensures
        feed_chunks(s, chunks) == feed_bytes(s, concat_chunks(chunks)),
    decreases chunks.len(),
{
    if chunks.len() == 0 {
        let r = feed_bytes(s, concat_chunks(chunks));
        assert(feed_bytes(s, Seq::<u8>::empty()).1 =~= Seq::<EventModel>::empty());
    } else {
        let r1 = feed_bytes(s, chunks[0]);
        lemma_chunking_invariance(r1.0, chunks.drop_first());
        lemma_feed_bytes_append(s, chunks[0], concat_chunks(chunks.drop_first()));
    }
}

/// The incremental wire-event decoder.
pub struct EventDecoder {
    buf: Vec<u8>,
    done: bool,
}

impl View for EventDecoder {
    type V = DecoderModel;

    closed spec fn view(&self) -> DecoderModel {
        DecoderModel { buf: self.buf@, done: self.done }
    }
}

impl EventDecoder {
    /// A fresh decoder: nothing buffered, sentinel not seen.
    pub fn new() -> (r: EventDecoder)
        ensures
            r@ == init_decoder(),
    {
        EventDecoder { buf: Vec::new(), done: false }
    }

    /// Feeds one chunk of raw bytes; returns the events the chunk completed,
    /// in order.
    pub fn push_chunk(&mut self, chunk: &Vec<u8>) -> (events: Vec<WireEvent>)
        ensures
            ({
                let r = feed_bytes(old(self)@, chunk@);
                final(self)@ == r.0 && events_model(events@) == r.1
            }),
    {
        let mut events: Vec<WireEvent> = Vec::new();
        let n = chunk.len();
        proof {
            assert(chunk@.subrange(0, 0) =~= Seq::<u8>::empty());
            assert(events_model(events@) =~= Seq::<EventModel>::empty());
        }
        for i in 0..n
            invariant
                n == chunk@.len(),
                ({
                    let r = feed_bytes(old(self)@, chunk@.subrange(0, i as int));
                    self@ == r.0 && events_model(events@) == r.1
                }),
        {
            let b = chunk[i];
            let ghost pre = self@;
            let ghost epre = events@;
            if !self.done {
                if b == 10 {
                    let line = self.buf.split_off(0);
                    proof {
                        assert(line@ =~= pre.buf);
                        assert(self.buf@ =~= Seq::<u8>::empty());
                    }
                    let (line_evs, marks_done) = line_to_events(&line);
                    self.done = marks_done;
                    append_events(&mut events, line_evs);
                } else {
                    self.buf.push(b);
                }
            }
            proof {
                let step = feed_byte(pre, b);
                assert(self@ == step.0);
                assert(events_model(events@) =~= events_model(epre) + step.1);
                lemma_feed_bytes_append(old(self)@, chunk@.subrange(0, i as int), seq![b]);
                assert(chunk@.subrange(0, i as int) + seq![b] =~= chunk@.subrange(
                    0,
                    i as int + 1,
                ));
                assert(seq![b].drop_first() =~= Seq::<u8>::empty());
                reveal_with_fuel(feed_bytes, 3);
                assert(feed_bytes(pre, seq![b]) == (step.0, step.1 + Seq::<EventModel>::empty()));
                assert(events_model(epre) + (step.1 + Seq::<EventModel>::empty())
                    =~= events_model(epre) + step.1);
            }
        }
        proof {
            assert(chunk@.subrange(0, n as int) =~= chunk@);
        }
        events
    }

    /// Ends the input: a buffered unterminated residual is treated as one
    /// final line, and the decoder does no further work.
    pub fn finish(&mut self) -> (events: Vec<WireEvent>)
        ensures
            events_model(events@) == finish_events(old(self)@),
            final(self)@ == (DecoderModel { buf: Seq::empty(), done: true }),
    {
        let mut events: Vec<WireEvent> = Vec::new();
        let line = self.buf.split_off(0);
        proof {
            assert(line@ =~= old(self)@.buf);
            assert(self.buf@ =~= Seq::<u8>::empty());
        }
        if !self.done && line.len() > 0 {
            let (line_evs, _marks_done) = line_to_events(&line);
            append_events(&mut events, line_evs);
            proof {
                assert(events_model(events@) =~= line_events(line@));
            }
        } else {
            proof {
                assert(events_model(events@) =~= finish_events(old(self)@));
            }
        }
        self.done = true;
        events
    }
}

/// Appends every event of `src` to `dst`, in order.
fn append_events(dst: &mut Vec<WireEvent>, src: Vec<WireEvent>)
    ensures
        events_model(final(dst)@) == events_model(old(dst)@) + events_model(src@),
{
    let mut src = src;
    let ghost src0 = src@;
    let total = src.len();
    let mut k: usize = 0;
    proof {
        assert(src@ =~= src0.subrange(0, src0.len() as int));
        assert(events_model(dst@) =~= events_model(old(dst)@) + events_model(
            src0.subrange(0, 0),
        ));
    }
    while k < total
        invariant
            src0.len() == total,
            k <= total,
            src@.len() == total - k,
            src@ == src0.subrange(k as int, total as int),
            events_model(dst@) == events_model(old(dst)@) + events_model(
                src0.subrange(0, k as int),
            ),
        decreases total - k,
    {
        let ghost dpre = dst@;
        let e = src.remove(0);
        proof {
            assert(src0.subrange(k as int, total as int)[0] == src0[k as int]);
        }
        dst.push(e);
        k = k + 1;
        proof {
            assert(src@ =~= src0.subrange(k as int, total as int));
            assert(events_model(dst@) =~= events_model(dpre).push(src0[k - 1]@));
            assert(events_model(dst@) =~= events_model(old(dst)@) + events_model(
                src0.subrange(0, k as int),
            ));
        }
    }
    proof {
        assert(src0.subrange(0, src0.len() as int) =~= src0);
    }
}

/// Whether a line begins with the event prefix `"data: "`.
fn has_data_prefix(line: &Vec<u8>) -> (r: bool)
    ensures
        r == is_data_line(line@),
{
    if line.len() < 6 {
        return false;
    }
    let r = line[0] == 100 && line[1] == 97 && line[2] == 116 && line[3] == 97 && line[4] == 58
        && line[5] == 32;
    proof {
        if r {
            assert(line@.subrange(0, 6) =~= data_prefix());
        } else {
            if line@.subrange(0, 6) == data_prefix() {
                assert(line@[0] == data_prefix()[0]);
                assert(line@[1] == data_prefix()[1]);
                assert(line@[2] == data_prefix()[2]);
                assert(line@[3] == data_prefix()[3]);
                assert(line@[4] == data_prefix()[4]);
                assert(line@[5] == data_prefix()[5]);
            }
        }
    }
    r
}

/// Whether a payload equals one of the two sentinel spellings.
fn is_sentinel(payload: &[u8]) -> (r: bool)
    ensures
        r == is_done_payload(payload@),
{
    if payload.len() == 6 {
        let r = payload[0] == 91 && payload[1] == 68 && payload[2] == 79 && payload[3] == 78
            && payload[4] == 69 && payload[5] == 93;
        proof {
            if r {
                assert(payload@ =~= done_sentinel());
            } else {
                assert(payload@.len() != done_sentinel_bare().len());
                if payload@ == done_sentinel() {
                    assert(payload@[0] == done_sentinel()[0]);
                    assert(payload@[1] == done_sentinel()[1]);
                    assert(payload@[2] == done_sentinel()[2]);
                    assert(payload@[3] == done_sentinel()[3]);
                    assert(payload@[4] == done_sentinel()[4]);
                    assert(payload@[5] == done_sentinel()[5]);
                }
            }
        }
        r
    } else if payload.len() == 4 {
        let r = payload[0] == 68 && payload[1] == 79 && payload[2] == 78 && payload[3] == 69;
        proof {
            if r {
                assert(payload@ =~= done_sentinel_bare());
            } else {
                assert(payload@.len() != done_sentinel().len());
                if payload@ == done_sentinel_bare() {
                    assert(payload@[0] == done_sentinel_bare()[0]);
                    assert(payload@[1] == done_sentinel_bare()[1]);
                    assert(payload@[2] == done_sentinel_bare()[2]);
                    assert(payload@[3] == done_sentinel_bare()[3]);
                }
            }
        }
        r
    } else {
        proof {
            assert(payload@.len() != done_sentinel().len());
            assert(payload@.len() != done_sentinel_bare().len());
        }
        false
    }
}

/// The reasoning-channel delta of one delta object.
fn reasoning_exec(d: &ArgValue) -> (r: Vec<WireEvent>)
    ensures
        events_model(r@) == reasoning_events(d@),
{
    let mut out: Vec<WireEvent> = Vec::new();
    match d.get_str("reasoning_content") {
        Some(s) => {
            if !s.as_str().is_empty() {
                out.push(WireEvent::TextDelta { channel: Channel::Reasoning, text: s.clone() });
            }
        },
        None => {},
    }
    proof {
        assert(events_model(out@) =~= reasoning_events(d@));
    }
    out
}

/// The primary-channel delta of one delta object.
fn content_exec(d: &ArgValue) -> (r: Vec<WireEvent>)
    ensures
        events_model(r@) == content_events(d@),
{
    let mut out: Vec<WireEvent> = Vec::new();
    match d.get_str("content") {
        Some(s) => {
            if !s.as_str().is_empty() {
                out.push(WireEvent::TextDelta { channel: Channel::Primary, text: s.clone() });
            }
        },
        None => {},
    }
    proof {
        assert(events_model(out@) =~= content_events(d@));
    }
    out
}

/// The fragment event of one tool-call array entry.
fn fragment_exec(e: &ArgValue) -> (r: WireEvent)
    ensures
        r@ == fragment_of(e@),
{
    let index: u64 = match e.get("index") {
        Some(f) => match f {
            ArgValue::Int(i) => if *i >= 0 {
                *i as u64
            } else {
                0
            },
            _ => 0,
        },
        None => 0,
    };
    let id: Option<String> = match e.get_str("id") {
        Some(s) => Some(s.clone()),
        None => None,
    };
    let (name, args_piece) = match e.get("function") {
        Some(f) => {
            let nm: Option<String> = match f.get_str("name") {
                Some(s) => Some(s.clone()),
                None => None,
            };
            let ap: String = match f.get_str("arguments") {
                Some(s) => s.clone(),
                None => String::new(),
            };
            (nm, ap)
        },
        None => (None, String::new()),
    };
    WireEvent::ToolCallFragment { index, id, name, args_piece }
}

/// One fragment event per entry of the delta's tool-call array.
fn fragments_exec(d: &ArgValue) -> (r: Vec<WireEvent>)
    ensures
        events_model(r@) == fragment_events(d@),
{
    let mut out: Vec<WireEvent> = Vec::new();
    match d.get("tool_calls") {
        Some(t) => match t {
            ArgValue::Arr(entries) => {
                let n = entries.len();
                for i in 0..n
                    invariant
                        n == entries@.len(),
                        out@.len() == i,
                        model_get(d@, "tool_calls"@) == Some(arg_model(ArgValue::Arr(*entries))),
                        forall|j: int| 0 <= j < i ==> (#[trigger] out@[j])@ == fragment_of(
                            arg_model(entries@[j]),
                        ),
                {
                    out.push(fragment_exec(&entries[i]));
                }
                proof {
                    assert(events_model(out@) =~= fragment_events(d@));
                }
            },
            _ => {
                proof {
                    assert(events_model(out@) =~= fragment_events(d@));
                }
            },
        },
        None => {
            proof {
                assert(events_model(out@) =~= fragment_events(d@));
            }
        },
    }
    out
}

/// The completion marker of one choice object.
fn completion_exec(c0: &ArgValue) -> (r: Vec<WireEvent>)
    ensures
        events_model(r@) == completion_events(c0@),
{
    let mut out: Vec<WireEvent> = Vec::new();
    match c0.get_str("finish_reason") {
        Some(s) => {
            if crate::args::str_eq(s.as_str(), "tool_calls") {
                out.push(WireEvent::ToolCallsComplete);
            }
        },
        None => {},
    }
    proof {
        assert(events_model(out@) =~= completion_events(c0@));
    }
    out
}

/// The events of one parsed payload.
fn payload_to_events(v: &ArgValue) -> (r: Vec<WireEvent>)
    ensures
        events_model(r@) == payload_events(v@),
{
    let mut out: Vec<WireEvent> = Vec::new();
    match v.get("choices") {
        Some(c) => match c {
            ArgValue::Arr(cs) => {
                if cs.len() > 0 {
                    let c0 = &cs[0];
                    proof {
                        assert(arg_model(ArgValue::Arr(*cs))->Arr_0[0] == arg_model(cs@[0]));
                    }
                    match c0.get("delta") {
                        Some(d) => {
                            append_events(&mut out, reasoning_exec(d));
                            append_events(&mut out, content_exec(d));
                            append_events(&mut out, fragments_exec(d));
                        },
                        None => {},
                    }
                    append_events(&mut out, completion_exec(c0));
                    proof {
                        assert(events_model(out@) =~= payload_events(v@));
                    }
                } else {
                    proof {
                        assert(events_model(out@) =~= payload_events(v@));
                    }
                }
            },
            _ => {
                proof {
                    assert(events_model(out@) =~= payload_events(v@));
                }
            },
        },
        None => {
            proof {
                assert(events_model(out@) =~= payload_events(v@));
            }
        },
    }
    out
}

/// The events of one complete line, and whether the line ends the stream.
fn line_to_events(line: &Vec<u8>) -> (r: (Vec<WireEvent>, bool))
    ensures
        events_model(r.0@) == line_events(line@),
        r.1 == line_marks_done(line@),
{
    if !has_data_prefix(line) {
        let out: Vec<WireEvent> = Vec::new();
        proof {
            assert(events_model(out@) =~= line_events(line@));
        }
        return (out, false);
    }
    let payload = vstd::slice::slice_subrange(line.as_slice(), 6, line.len());
    proof {
        assert(payload@ == line_payload(line@));
    }
    if is_sentinel(payload) {
        let mut out: Vec<WireEvent> = Vec::new();
        out.push(WireEvent::Done);
        proof {
            assert(events_model(out@) =~= line_events(line@));
        }
        return (out, true);
    }
    match parse_json_bytes(payload) {
        Some(v) => {
            let out = payload_to_events(&v);
            (out, false)
        },
        None => {
            let out: Vec<WireEvent> = Vec::new();
            proof {
                assert(events_model(out@) =~= line_events(line@));
            }
            (out, false)
        },
    }
}

} // verus!
