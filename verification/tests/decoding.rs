use ai_agent::args::ArgValue;
use ai_agent::assembler::ToolCallAssembler;
use ai_agent::decoder::{Channel, EventDecoder, WireEvent};
use ai_agent::stream::{parse_response, SseEvent, StreamSession, TurnCollector};

fn bytes(text: &str) -> Vec<u8> {
    text.as_bytes().to_vec()
}

fn decode_whole(input: &str) -> Vec<WireEvent> {
    let mut decoder = EventDecoder::new();
    let mut events = decoder.push_chunk(&bytes(input));
    events.extend(decoder.finish());
    events
}

fn decode_bytewise(input: &str) -> Vec<WireEvent> {
    let mut decoder = EventDecoder::new();
    let mut events = Vec::new();
    for b in input.as_bytes() {
        events.extend(decoder.push_chunk(&vec![*b]));
    }
    events.extend(decoder.finish());
    events
}

const STREAM: &str = "data: {\"choices\":[{\"delta\":{\"content\":\"Hel\"}}]}\n: keep-alive\n\ndata: {\"choices\":[{\"delta\":{\"reasoning_content\":\"thinking\"}}]}\ndata: not json at all\ndata: {\"choices\":[{\"delta\":{\"tool_calls\":[{\"index\":0,\"id\":\"c1\",\"function\":{\"name\":\"f\",\"arguments\":\"{\\\"a\\\"\"}}]}}]}\ndata: {\"choices\":[{\"delta\":{\"tool_calls\":[{\"index\":0,\"function\":{\"arguments\":\":1}\"}}]},\"finish_reason\":\"tool_calls\"}]}\ndata: [DONE]\n";

#[test]
fn fragmentation_invariance_concrete() {
    let whole = decode_whole(STREAM);
    let split = decode_bytewise(STREAM);
    assert_eq!(whole, split);

    // An arbitrary three-way cut gives the same events too.
    let mut decoder = EventDecoder::new();
    let raw = STREAM.as_bytes();
    let mut events = Vec::new();
    events.extend(decoder.push_chunk(&raw[..7].to_vec()));
    events.extend(decoder.push_chunk(&raw[7..53].to_vec()));
    events.extend(decoder.push_chunk(&raw[53..].to_vec()));
    events.extend(decoder.finish());
    assert_eq!(whole, events);
}

#[test]
fn decoder_events_in_order() {
    let events = decode_whole(STREAM);
    assert_eq!(events.len(), 6);
    assert_eq!(
        events[0],
        WireEvent::TextDelta { channel: Channel::Primary, text: "Hel".to_string() }
    );
    assert_eq!(
        events[1],
        WireEvent::TextDelta { channel: Channel::Reasoning, text: "thinking".to_string() }
    );
    assert!(matches!(events[2], WireEvent::ToolCallFragment { index: 0, .. }));
    assert_eq!(events[3], WireEvent::ToolCallFragment {
        index: 0,
        id: None,
        name: None,
        args_piece: ":1}".to_string(),
    });
    // The completion marker follows the fragments of its payload...
    assert_eq!(events[4], WireEvent::ToolCallsComplete);
    // ...and the sentinel ends the stream: anything after it is ignored.
    assert_eq!(events[5], WireEvent::Done);
    let with_tail = format!("{}data: {{\"choices\":[{{\"delta\":{{\"content\":\"x\"}}}}]}}\n", STREAM);
    let more = decode_whole(&with_tail);
    assert_eq!(more.len(), 6);
    assert_eq!(more[5], WireEvent::Done);
}

#[test]
fn unterminated_residual_is_one_final_line() {
    let mut decoder = EventDecoder::new();
    let mut events = decoder.push_chunk(&bytes(
        "data: {\"choices\":[{\"delta\":{\"content\":\"tail\"}}]}",
    ));
    assert!(events.is_empty());
    events.extend(decoder.finish());
    assert_eq!(events.len(), 1);
    assert_eq!(
        events[0],
        WireEvent::TextDelta { channel: Channel::Primary, text: "tail".to_string() }
    );
}

#[test]
fn reassembly_matches_unfragmented_delivery() {
    let args = "{\"departure\":\"北京\",\"destination\":\"上海\"}";

    // One unfragmented delivery.
    let mut one = ToolCallAssembler::new();
    one.on_fragment(0, Some("c1".to_string()), Some("f".to_string()), args);
    let whole = one.on_complete().unwrap();

    // Character-by-character delivery.
    let mut many = ToolCallAssembler::new();
    many.on_fragment(0, Some("c1".to_string()), Some("f".to_string()), "");
    for ch in args.chars() {
        let piece = ch.to_string();
        many.on_fragment(0, None, None, &piece);
    }
    let split = many.on_complete().unwrap();

    assert_eq!(whole, split);
    assert_eq!(whole.len(), 1);
    assert_eq!(whole[0].id, "c1");
    assert_eq!(whole[0].name, "f");
    match &whole[0].arguments {
        ArgValue::Obj(pairs) => assert_eq!(pairs.len(), 2),
        other => panic!("expected an object, got {:?}", other),
    }
}

#[test]
fn empty_arguments_become_empty_object() {
    let mut assembler = ToolCallAssembler::new();
    assembler.on_fragment(2, Some("c2".to_string()), Some("g".to_string()), "");
    let calls = assembler.on_complete().unwrap();
    assert_eq!(calls[0].arguments, ArgValue::Obj(vec![]));
}

#[test]
fn unparseable_arguments_are_wrapped_raw() {
    let mut assembler = ToolCallAssembler::new();
    assembler.on_fragment(0, Some("c3".to_string()), Some("g".to_string()), "{broken");
    let calls = assembler.on_complete().unwrap();
    assert_eq!(
        calls[0].arguments,
        ArgValue::Obj(vec![("raw".to_string(), ArgValue::Str("{broken".to_string()))])
    );
}

#[test]
fn partial_without_id_or_name_is_never_exposed() {
    let mut assembler = ToolCallAssembler::new();
    assembler.on_fragment(0, None, Some("g".to_string()), "{}");
    assert!(assembler.on_complete().is_none());

    let mut assembler = ToolCallAssembler::new();
    assembler.on_fragment(0, Some("c4".to_string()), Some("g".to_string()), "{}");
    assembler.on_end();
    assert!(assembler.on_complete().is_none());
}

#[test]
fn session_emits_high_level_events() {
    let mut session = StreamSession::new();
    let mut collector = TurnCollector::new();
    let mut forwarded = String::new();
    let mut events = session.push_chunk(&bytes(STREAM));
    events.extend(session.finish());
    for e in events {
        if let Some(piece) = collector.absorb(e) {
            forwarded.push_str(&piece);
        }
    }
    assert_eq!(collector.text, "Helthinking");
    assert_eq!(forwarded, "Helthinking");
    assert!(collector.finished);
    let calls = collector.tool_calls.expect("the completed tool calls");
    assert_eq!(calls.len(), 1);
    assert_eq!(calls[0].name, "f");
    assert_eq!(
        calls[0].arguments,
        ArgValue::Obj(vec![("a".to_string(), ArgValue::Int(1))])
    );
}

#[test]
fn parse_response_reads_message_and_calls() {
    let body = ArgValue::Obj(vec![(
        "choices".to_string(),
        ArgValue::Arr(vec![ArgValue::Obj(vec![
            (
                "message".to_string(),
                ArgValue::Obj(vec![
                    ("content".to_string(), ArgValue::Str("hi".to_string())),
                    (
                        "tool_calls".to_string(),
                        ArgValue::Arr(vec![ArgValue::Obj(vec![
                            ("id".to_string(), ArgValue::Str("c9".to_string())),
                            (
                                "function".to_string(),
                                ArgValue::Obj(vec![
                                    ("name".to_string(), ArgValue::Str("f".to_string())),
                                    ("arguments".to_string(), ArgValue::Str("{}".to_string())),
                                ]),
                            ),
                        ])]),
                    ),
                ]),
            ),
            ("finish_reason".to_string(), ArgValue::Str("tool_calls".to_string())),
        ])]),
    )]);
    let r = parse_response(&body);
    assert_eq!(r.content, "hi");
    assert_eq!(r.finish_reason, "tool_calls");
    let calls = r.tool_calls.unwrap();
    assert_eq!(calls.len(), 1);
    assert_eq!(calls[0].id, "c9");
    assert_eq!(calls[0].name, "f");

    let empty = parse_response(&ArgValue::Obj(vec![]));
    assert_eq!(empty.content, "");
    assert_eq!(empty.finish_reason, "stop");
    assert!(empty.tool_calls.is_none());
}

#[test]
fn bare_done_sentinel_is_accepted() {
    let events = decode_whole("data: DONE\n");
    assert_eq!(events, vec![WireEvent::Done]);
}

#[test]
fn session_events_are_the_loop_level_shape() {
    let mut session = StreamSession::new();
    let events = session.push_chunk(&bytes(
        "data: {\"choices\":[{\"delta\":{\"content\":\"ok\"}}]}\ndata: [DONE]\n",
    ));
    assert_eq!(
        events,
        vec![SseEvent::TextDelta("ok".to_string()), SseEvent::Done]
    );
}
