//! The composed response stream: raw bytes in, high-level events out.
//!
//! A [`StreamSession`] feeds each byte chunk through the wire-event decoder
//! and routes tool-call fragments into the assembler, so its caller sees
//! only text deltas, at most one complete tool-call list per turn, and the
//! end-of-stream event. A [`TurnCollector`] accumulates one turn's text and
//! captures its tool-call list the way the orchestration loop consumes them.

use vstd::prelude::*;

use crate::assembler::{
    asm_on_fragment, finalize_calls, PartialModel, ToolCallAssembler,
};
use crate::decoder::{
    feed_bytes, finish_events, init_decoder, Channel, DecoderModel, EventDecoder, EventModel,
    WireEvent,
};
use crate::args::{arg_model, model_get, model_get_str, ArgModel, ArgValue};
use crate::protocol::{calls_model, ToolCall, ToolCallModel};

verus! {

/// One high-level stream event, as the orchestration loop consumes it.
#[derive(Debug, PartialEq)]
pub enum SseEvent {
    /// A piece of the turn's answer text.
    TextDelta(String),
    /// A piece of the turn's interim reasoning text.
    ReasoningDelta(String),
    /// The turn's complete, reassembled tool-call list.
    ToolCalls(Vec<ToolCall>),
    /// End of the stream.
    Done,
}

/// The model of an [`SseEvent`].
pub enum SseEventModel {
    TextDelta(Seq<char>),
    ReasoningDelta(Seq<char>),
    ToolCalls(Seq<ToolCallModel>),
    Done,
}

impl View for SseEvent {
    type V = SseEventModel;

    open spec fn view(&self) -> SseEventModel {
        match self {
            SseEvent::TextDelta(t) => SseEventModel::TextDelta(t@),
            SseEvent::ReasoningDelta(t) => SseEventModel::ReasoningDelta(t@),
            SseEvent::ToolCalls(calls) => SseEventModel::ToolCalls(calls_model(calls@)),
            SseEvent::Done => SseEventModel::Done,
        }
    }
}

/// The models of a high-level event list, in order.
pub open spec fn sse_events_model(s: Seq<SseEvent>) -> Seq<SseEventModel> {
    Seq::new(s.len(), |i: int| s[i]@)
}

/// The session's model: the decoder's state and the assembler's buffer.
pub struct SessionModel {
    pub dec: DecoderModel,
    pub partials: Seq<(u64, PartialModel)>,
}

/// One wire event routed through the session: text and the sentinel pass
/// through, fragments feed the assembler, the completion signal resolves the
/// buffered calls and emits them where any call was complete.
pub open spec fn session_on_event(partials: Seq<(u64, PartialModel)>, e: EventModel) -> (
    Seq<(u64, PartialModel)>,
    Seq<SseEventModel>,
) {
    match e {
        EventModel::TextDelta { channel, text } => (
            partials,
            match channel {
                Channel::Primary => seq![SseEventModel::TextDelta(text)],
                Channel::Reasoning => seq![SseEventModel::ReasoningDelta(text)],
            },
        ),
        EventModel::ToolCallFragment { index, id, name, args_piece } => (
            asm_on_fragment(partials, index, id, name, args_piece),
            Seq::empty(),
        ),
        EventModel::ToolCallsComplete => (
            Seq::empty(),
            if finalize_calls(partials).len() > 0 {
                seq![SseEventModel::ToolCalls(finalize_calls(partials))]
            } else {
                Seq::empty()
            },
        ),
        EventModel::Done => (partials, seq![SseEventModel::Done]),
    }
}

/// A sequence of wire events routed in order.
pub open spec fn session_on_events(partials: Seq<(u64, PartialModel)>, evs: Seq<EventModel>) -> (
    Seq<(u64, PartialModel)>,
    Seq<SseEventModel>,
)
    decreases evs.len(),
{
    if evs.len() == 0 {
        (partials, Seq::empty())
    } else {
        let r1 = session_on_event(partials, evs[0]);
        let r2 = session_on_events(r1.0, evs.drop_first());
        (r2.0, r1.1 + r2.1)
    }
}

/// Routing `a ++ b` routes `a`, then `b`.
pub proof fn lemma_session_events_append(
    partials: Seq<(u64, PartialModel)>,
    a: Seq<EventModel>,
    b: Seq<EventModel>,
)
    ensures
        ({
            let ra = session_on_events(partials, a);
            let rb = session_on_events(ra.0, b);
            session_on_events(partials, a + b) == (rb.0, ra.1 + rb.1)
        }),
    decreases a.len(),
{
    let ra = session_on_events(partials, a);
    let rb = session_on_events(ra.0, b);
    if a.len() == 0 {
        assert(a + b =~= b);
        assert(ra.1 + rb.1 =~= rb.1);
    } else {
        let r1 = session_on_event(partials, a[0]);
        assert((a + b)[0] == a[0]);
        assert((a + b).drop_first() =~= a.drop_first() + b);
        lemma_session_events_append(r1.0, a.drop_first(), b);
        let ra2 = session_on_events(r1.0, a.drop_first());
        let rb2 = session_on_events(ra2.0, b);
        assert(r1.1 + (ra2.1 + rb2.1) =~= (r1.1 + ra2.1) + rb2.1);
    }
}

/// One chunk of bytes pushed through the session.
pub open spec fn session_push(s: SessionModel, chunk: Seq<u8>) -> (SessionModel, Seq<SseEventModel>) {
    let rd = feed_bytes(s.dec, chunk);
    let ra = session_on_events(s.partials, rd.1);
    (SessionModel { dec: rd.0, partials: ra.0 }, ra.1)
}

/// End of input: the decoder's residual line is routed, then every buffered
/// partial call is discarded without emission.
pub open spec fn session_finish(s: SessionModel) -> (SessionModel, Seq<SseEventModel>) {
    let ra = session_on_events(s.partials, finish_events(s.dec));
    (SessionModel { dec: DecoderModel { buf: Seq::empty(), done: true }, partials: Seq::empty() }, ra.1)
}

/// The composed response stream: decoder and assembler driven together.
pub struct StreamSession {
    decoder: EventDecoder,
    assembler: ToolCallAssembler,
}

impl View for StreamSession {
    type V = SessionModel;

    closed spec fn view(&self) -> SessionModel {
        SessionModel { dec: self.decoder@, partials: self.assembler@ }
    }
}

impl StreamSession {
    /// A fresh session.
    pub fn new() -> (r: StreamSession)
        ensures
            r@ == (SessionModel { dec: init_decoder(), partials: Seq::<(u64, PartialModel)>::empty() }),
    {
        StreamSession { decoder: EventDecoder::new(), assembler: ToolCallAssembler::new() }
    }

    /// Feeds one chunk of raw bytes; returns the high-level events it
    /// completed, in order.
    pub fn push_chunk(&mut self, chunk: &Vec<u8>) -> (out: Vec<SseEvent>)
        ensures
            ({
                let r = session_push(old(self)@, chunk@);
                final(self)@ == r.0 && sse_events_model(out@) == r.1
            }),
    {
        let events = self.decoder.push_chunk(chunk);
        self.route_events(events)
    }

    /// Ends the input: the unterminated residual line is processed, and
    /// partially assembled calls are discarded — no partial call is ever
    /// exposed.
    pub fn finish(&mut self) -> (out: Vec<SseEvent>)
        ensures
            ({
                let r = session_finish(old(self)@);
                final(self)@ == r.0 && sse_events_model(out@) == r.1
            }),
    {
        let events = self.decoder.finish();
        let out = self.route_events(events);
        self.assembler.on_end();
        out
    }

    /// Routes decoded wire events through the assembler.
    fn route_events(&mut self, events: Vec<WireEvent>) -> (out: Vec<SseEvent>)
        ensures
            final(self)@.dec == old(self)@.dec,
            ({
                let r = session_on_events(old(self)@.partials, crate::decoder::events_model(events@));
                final(self)@.partials == r.0 && sse_events_model(out@) == r.1
            }),
    {
        let mut out: Vec<SseEvent> = Vec::new();
        let mut src = events;
        let ghost src0 = crate::decoder::events_model(src@);
        let total = src.len();
        let mut k: usize = 0;
        proof {
            assert(src@.subrange(0, 0) =~= Seq::<WireEvent>::empty());
            assert(src0.subrange(0, 0) =~= Seq::<EventModel>::empty());
            assert(sse_events_model(out@) =~= Seq::<SseEventModel>::empty());
        }
        while k < total
            invariant
                src0.len() == total,
                k <= total,
                src@.len() == total - k,
                forall|j: int| 0 <= j < src@.len() ==> (#[trigger] src@[j])@ == src0[j + k],
                ({
                    let r = session_on_events(old(self)@.partials, src0.subrange(0, k as int));
                    self@.partials == r.0 && sse_events_model(out@) == r.1
                }),
                self@.dec == old(self)@.dec,
            decreases total - k,
        {
            let ghost partials_pre = self@.partials;
            let ghost out_pre = out@;
            let e = src.remove(0);
            let ghost em = e@;
            proof {
                assert(em == src0[k as int]);
            }
            match e {
                WireEvent::TextDelta { channel, text } => {
                    match channel {
                        Channel::Primary => out.push(SseEvent::TextDelta(text)),
                        Channel::Reasoning => out.push(SseEvent::ReasoningDelta(text)),
                    }
                },
                WireEvent::ToolCallFragment { index, id, name, args_piece } => {
                    self.assembler.on_fragment(index, id, name, args_piece.as_str());
                },
                WireEvent::ToolCallsComplete => {
                    match self.assembler.on_complete() {
                        Some(calls) => out.push(SseEvent::ToolCalls(calls)),
                        None => {},
                    }
                },
                WireEvent::Done => out.push(SseEvent::Done),
            }
            k = k + 1;
            proof {
                let step = session_on_event(partials_pre, em);
                assert(self@.partials == step.0);
                assert(sse_events_model(out@) =~= sse_events_model(out_pre) + step.1);
                lemma_session_events_append(
                    old(self)@.partials,
                    src0.subrange(0, k as int - 1),
                    seq![em],
                );
                assert(src0.subrange(0, k as int - 1) + seq![em] =~= src0.subrange(0, k as int));
                assert(seq![em].drop_first() =~= Seq::<EventModel>::empty());
                reveal_with_fuel(session_on_events, 3);
                assert(session_on_events(partials_pre, seq![em]) == (
                    step.0,
                    step.1 + Seq::<SseEventModel>::empty(),
                ));
                assert(sse_events_model(out_pre) + (step.1 + Seq::<SseEventModel>::empty())
                    =~= sse_events_model(out_pre) + step.1);
            }
        }
        proof {
            assert(src0.subrange(0, total as int) =~= src0);
        }
        out
    }
}

/// Accumulates one backend turn as the loop's drain consumes the stream:
/// every text delta is appended (and handed back for the caller's sink), a
/// complete tool-call list is captured, the end of the stream is noted.
pub struct TurnCollector {
    pub text: String,
    pub tool_calls: Option<Vec<ToolCall>>,
    pub finished: bool,
}

/// The model of a [`TurnCollector`].
pub struct CollectorModel {
    pub text: Seq<char>,
    pub tool_calls: Option<Seq<ToolCallModel>>,
    pub finished: bool,
}

impl View for TurnCollector {
    type V = CollectorModel;

    open spec fn view(&self) -> CollectorModel {
        CollectorModel {
            text: self.text@,
            tool_calls: crate::protocol::opt_calls_model(self.tool_calls),
            finished: self.finished,
        }
    }
}

/// One event absorbed into the turn: deltas of both channels extend the
/// text and are handed on; a tool-call list is captured; the end event
/// marks the turn finished.
pub open spec fn collector_absorb(c: CollectorModel, e: SseEventModel) -> (
    CollectorModel,
    Option<Seq<char>>,
) {
    match e {
        SseEventModel::TextDelta(t) => (
            CollectorModel { text: c.text + t, tool_calls: c.tool_calls, finished: c.finished },
            Some(t),
        ),
        SseEventModel::ReasoningDelta(t) => (
            CollectorModel { text: c.text + t, tool_calls: c.tool_calls, finished: c.finished },
            Some(t),
        ),
        SseEventModel::ToolCalls(calls) => (
            CollectorModel { text: c.text, tool_calls: Some(calls), finished: c.finished },
            None,
        ),
        SseEventModel::Done => (
            CollectorModel { text: c.text, tool_calls: c.tool_calls, finished: true },
            None,
        ),
    }
}

impl TurnCollector {
    /// A fresh, empty turn.
    pub fn new() -> (r: TurnCollector)
        ensures
            r@ == (CollectorModel {
                text: Seq::<char>::empty(),
                tool_calls: None::<Seq<ToolCallModel>>,
                finished: false,
            }),
    {
        let r = TurnCollector { text: String::new(), tool_calls: None, finished: false };
        r
    }

    /// Absorbs one event; returns the text to forward to the caller's sink,
    /// if the event carried any.
    pub fn absorb(&mut self, e: SseEvent) -> (forward: Option<String>)
        ensures
            ({
                let r = collector_absorb(old(self)@, e@);
                final(self)@ == r.0 && crate::assembler::opt_text(forward) == r.1
            }),
    {
        match e {
            SseEvent::TextDelta(t) => {
                self.text.append(t.as_str());
                Some(t)
            },
            SseEvent::ReasoningDelta(t) => {
                self.text.append(t.as_str());
                Some(t)
            },
            SseEvent::ToolCalls(calls) => {
                self.tool_calls = Some(calls);
                None
            },
            SseEvent::Done => {
                self.finished = true;
                None
            },
        }
    }
}

/// A complete, non-incremental backend response.
#[derive(Debug, PartialEq)]
pub struct ChatResponse {
    pub content: String,
    pub tool_calls: Option<Vec<ToolCall>>,
    pub finish_reason: String,
}

/// The model of a [`ChatResponse`].
pub struct ChatResponseModel {
    pub content: Seq<char>,
    pub tool_calls: Option<Seq<ToolCallModel>>,
    pub finish_reason: Seq<char>,
}

impl View for ChatResponse {
    type V = ChatResponseModel;

    open spec fn view(&self) -> ChatResponseModel {
        ChatResponseModel {
            content: self.content@,
            tool_calls: crate::protocol::opt_calls_model(self.tool_calls),
            finish_reason: self.finish_reason@,
        }
    }
}

/// The first choice of a response document, or null where the document has
/// no non-empty choice array.
pub open spec fn first_choice(m: ArgModel) -> ArgModel {
    match model_get(m, "choices"@) {
        Some(c) => match c {
            ArgModel::Arr(cs) => if cs.len() > 0 {
                cs[0]
            } else {
                ArgModel::Null
            },
            _ => ArgModel::Null,
        },
        None => ArgModel::Null,
    }
}

/// The first choice's message object, or null.
pub open spec fn response_message(m: ArgModel) -> ArgModel {
    match model_get(first_choice(m), "message"@) {
        Some(x) => x,
        None => ArgModel::Null,
    }
}

/// The tool call carried by one entry of a message's tool-call array: its
/// id, its function's name, and its function's arguments value; entries
/// without id or name are skipped.
pub open spec fn response_call_of(e: ArgModel) -> Option<ToolCallModel> {
    let name = match model_get(e, "function"@) {
        Some(f) => model_get_str(f, "name"@),
        None => None,
    };
    match (model_get_str(e, "id"@), name) {
        (Some(id), Some(nm)) => Some(
            ToolCallModel {
                id: id,
                name: nm,
                arguments: match model_get(e, "function"@) {
                    Some(f) => match model_get(f, "arguments"@) {
                        Some(a) => a,
                        None => ArgModel::Null,
                    },
                    None => ArgModel::Null,
                },
            },
        ),
        _ => None,
    }
}

/// The tool calls of a message's tool-call array, in order, entries without
/// id or name skipped.
pub open spec fn response_calls(entries: Seq<ArgModel>) -> Seq<ToolCallModel>
    decreases entries.len(),
{
    if entries.len() == 0 {
        Seq::empty()
    } else {
        let rest = response_calls(entries.drop_first());
        match response_call_of(entries[0]) {
            Some(c) => seq![c] + rest,
            None => rest,
        }
    }
}

proof fn lemma_response_calls_append(a: Seq<ArgModel>, b: Seq<ArgModel>)
    ensures
        response_calls(a + b) == response_calls(a) + response_calls(b),
    decreases a.len(),
{
    if a.len() == 0 {
        assert(a + b =~= b);
        assert(response_calls(a) + response_calls(b) =~= response_calls(b));
    } else {
        assert((a + b)[0] == a[0]);
        assert((a + b).drop_first() =~= a.drop_first() + b);
        lemma_response_calls_append(a.drop_first(), b);
        match response_call_of(a[0]) {
            Some(c) => {
                assert(seq![c] + (response_calls(a.drop_first()) + response_calls(b)) =~= (seq![c]
                    + response_calls(a.drop_first())) + response_calls(b));
            },
            None => {},
        }
    }
}

/// What parsing a complete response document yields: the message's content
/// (empty where absent), its tool calls (absent without a tool-call array),
/// and the finish reason (a fixed default where absent).
pub open spec fn parse_response_model(m: ArgModel) -> ChatResponseModel {
    ChatResponseModel {
        content: match model_get_str(response_message(m), "content"@) {
            Some(s) => s,
            None => Seq::empty(),
        },
        tool_calls: match model_get(response_message(m), "tool_calls"@) {
            Some(t) => match t {
                ArgModel::Arr(es) => Some(response_calls(es)),
                _ => None,
            },
            None => None,
        },
        finish_reason: match model_get_str(first_choice(m), "finish_reason"@) {
            Some(s) => s,
            None => "stop"@,
        },
    }
}

/// The first choice of a parsed response document.
fn first_choice_exec(v: &ArgValue) -> (r: Option<&ArgValue>)
    ensures
        match r {
            Some(c) => first_choice(v@) == c@,
            None => first_choice(v@) == ArgModel::Null,
        },
{
    match v.get("choices") {
        Some(c) => match c {
            ArgValue::Arr(cs) => {
                if cs.len() > 0 {
                    proof {
                        assert(arg_model(ArgValue::Arr(*cs))->Arr_0[0] == arg_model(cs@[0]));
                    }
                    Some(&cs[0])
                } else {
                    None
                }
            },
            _ => None,
        },
        None => None,
    }
}

/// The tool call of one tool-call array entry, where id and name arrived.
fn response_call_exec(e: &ArgValue) -> (r: Option<ToolCall>)
    ensures
        match r {
            Some(c) => response_call_of(e@) == Some(c@),
            None => response_call_of(e@) is None,
        },
{
    let id = match e.get_str("id") {
        Some(s) => Some(s.clone()),
        None => None,
    };
    let fun = e.get("function");
    let name: Option<String> = match &fun {
        Some(f) => match f.get_str("name") {
            Some(s) => Some(s.clone()),
            None => None,
        },
        None => None,
    };
    match (id, name) {
        (Some(id), Some(name)) => {
            let arguments = match &fun {
                Some(f) => match f.get("arguments") {
                    Some(a) => a.duplicate(),
                    None => ArgValue::Null,
                },
                None => ArgValue::Null,
            };
            Some(ToolCall { id, name, arguments })
        },
        _ => None,
    }
}

/// Parses a complete, non-incremental response document into the message
/// content, the requested tool calls, and the finish reason.
pub fn parse_response(body: &ArgValue) -> (r: ChatResponse)
    ensures
        r@ == parse_response_model(body@),
{
    let msg: Option<&ArgValue> = match first_choice_exec(body) {
        Some(c) => c.get("message"),
        None => None,
    };
    let content: String = match &msg {
        Some(m) => match m.get_str("content") {
            Some(s) => s.clone(),
            None => String::new(),
        },
        None => String::new(),
    };
    let tool_calls: Option<Vec<ToolCall>> = match &msg {
        Some(m) => match m.get("tool_calls") {
            Some(t) => match t {
                ArgValue::Arr(entries) => {
                    let mut out: Vec<ToolCall> = Vec::new();
                    let ghost em = arg_model(ArgValue::Arr(*entries))->Arr_0;
                    let n = entries.len();
                    proof {
                        assert(em.subrange(0, 0) =~= Seq::<ArgModel>::empty());
                        assert(calls_model(out@) =~= response_calls(em.subrange(0, 0)));
                    }
                    for i in 0..n
                        invariant
                            n == entries@.len(),
                            em == arg_model(ArgValue::Arr(*entries))->Arr_0,
                            em.len() == n,
                            calls_model(out@) == response_calls(em.subrange(0, i as int)),
                    {
                        proof {
                            assert(em[i as int] == arg_model(entries@[i as int]));
                        }
                        let ghost opre = out@;
                        match response_call_exec(&entries[i]) {
                            Some(c) => out.push(c),
                            None => {},
                        }
                        proof {
                            reveal_with_fuel(response_calls, 3);
                            lemma_response_calls_append(
                                em.subrange(0, i as int),
                                seq![em[i as int]],
                            );
                            assert(em.subrange(0, i as int + 1) =~= em.subrange(0, i as int)
                                + seq![em[i as int]]);
                            assert(seq![em[i as int]].drop_first() =~= Seq::<ArgModel>::empty());
                            assert(calls_model(out@) =~= response_calls(
                                em.subrange(0, i as int + 1),
                            ));
                        }
                    }
                    proof {
                        assert(em.subrange(0, n as int) =~= em);
                    }
                    Some(out)
                },
                _ => None,
            },
            None => None,
        },
        None => None,
    };
    let finish_reason: String = match first_choice_exec(body) {
        Some(c) => match c.get_str("finish_reason") {
            Some(s) => s.clone(),
            None => "stop".to_owned(),
        },
        None => "stop".to_owned(),
    };
    let r = ChatResponse { content, tool_calls, finish_reason };
    proof {
        assert(r@.tool_calls == parse_response_model(body@).tool_calls);
    }
    r
}

} // verus!
