use chatgpt_cli::{
    begin_turn, classify_line, first_fragment, Choice, CompletionResponse, Conversation, LineKind,
    LineStep, Message, Role, StreamError, StreamState, TurnStatus,
};

fn decode(text: &str) -> Option<CompletionResponse> {
    let v: serde_json::Value = serde_json::from_str(text).ok()?;
    let id = v.get("id")?.as_str()?.to_string();
    let mut choices = Vec::new();
    for c in v.get("choices")?.as_array()? {
        let delta = c.get("delta")?;
        let role = match delta.get("role").and_then(|r| r.as_str()) {
            Some("user") => Some(Role::User),
            Some("assistant") => Some(Role::Assistant),
            _ => None,
        };
        let content = delta.get("content").and_then(|s| s.as_str()).map(|s| s.to_string());
        let index = c.get("index")?.as_u64()? as usize;
        choices.push(Choice { delta: Message { role, content }, index });
    }
    Some(CompletionResponse { id, choices })
}

fn delta_line(fragment: &str) -> String {
    format!(
        "data: {{\"id\":\"c1\",\"choices\":[{{\"delta\":{{\"content\":{}}},\"index\":0}}]}}\n",
        serde_json::Value::String(fragment.to_string())
    )
}

/// Drives one turn over `chunks`; returns the outcome and the fragments shown.
fn run_turn(
    conv: &mut Conversation,
    question: &str,
    chunks: &[&[u8]],
) -> (Result<(), StreamError>, Vec<String>, String) {
    let mut st = begin_turn(conv, question);
    let mut shown = Vec::new();
    let mut lines: Vec<Vec<u8>> = Vec::new();
    let mut ended = false;
    let mut next_chunk = 0;
    loop {
        if lines.is_empty() {
            if next_chunk < chunks.len() {
                lines = st.push_chunk(chunks[next_chunk]);
                next_chunk += 1;
                continue;
            }
            if ended {
                let content = st.content_so_far().to_string();
                return (Err(StreamError::Incomplete), shown, content);
            }
            ended = true;
            if let Some(l) = st.end_of_stream() {
                lines.push(l);
            }
            continue;
        }
        let line = lines.remove(0);
        match st.on_line(conv, &line) {
            Err(e) => return (Err(e), shown, st.content_so_far().to_string()),
            Ok(LineStep::Skip) => {}
            Ok(LineStep::Finished) => return (Ok(()), shown, st.content_so_far().to_string()),
            Ok(LineStep::Decode(text)) => {
                let resp = decode(&text);
                match st.on_decoded(resp.as_ref()) {
                    Err(e) => return (Err(e), shown, st.content_so_far().to_string()),
                    Ok(Some(f)) => shown.push(f),
                    Ok(None) => {}
                }
            }
        }
    }
}

fn contents(conv: &Conversation) -> Vec<(Option<Role>, Option<String>)> {
    conv.messages().iter().map(|m| (m.role, m.content.clone())).collect()
}

#[test]
fn sentinel_forms_are_equivalent() {
    for l in ["data: [DONE]", "[DONE]", "  [DONE]  ", "data:   [DONE]\r", "\u{a0}[DONE]\u{3000}"] {
        assert_eq!(classify_line(l.as_bytes()), Ok(LineKind::Sentinel), "{:?}", l);
    }
}

#[test]
fn prefix_must_be_exact() {
    assert_eq!(
        classify_line(b"data:[DONE]"),
        Ok(LineKind::Payload("data:[DONE]".to_string()))
    );
    assert_eq!(
        classify_line(b"  data: [DONE]"),
        Ok(LineKind::Payload("data: [DONE]".to_string()))
    );
    assert_eq!(classify_line(b"[done]"), Ok(LineKind::Payload("[done]".to_string())));
}

#[test]
fn blank_lines_are_ignored() {
    for l in ["", "   ", "data: ", "data:    \r", "\t\u{2003}"] {
        assert_eq!(classify_line(l.as_bytes()), Ok(LineKind::Blank), "{:?}", l);
    }
    let mut conv = Conversation::new("m".to_string());
    let mut st = begin_turn(&mut conv, "q");
    assert_eq!(st.on_line(&mut conv, b"   "), Ok(LineStep::Skip));
    assert_eq!(st.status_now(), TurnStatus::Streaming);
    assert_eq!(st.content_so_far(), "");
    assert_eq!(conv.messages().len(), 1);
}

#[test]
fn blank_lines_anywhere_change_nothing() {
    let body = format!("\n\n{}\n   \n{}data: \n\ndata: [DONE]\n", delta_line("a").trim_end(), delta_line("b"));
    let mut conv = Conversation::new("m".to_string());
    let (r, shown, content) = run_turn(&mut conv, "q", &[body.as_bytes()]);
    assert_eq!(r, Ok(()));
    assert_eq!(shown, vec!["a".to_string(), "b".to_string()]);
    assert_eq!(content, "ab");
}

#[test]
fn payload_text_is_stripped_and_trimmed() {
    assert_eq!(
        classify_line(b"data:  {\"id\":\"x\"} \r"),
        Ok(LineKind::Payload("{\"id\":\"x\"}".to_string()))
    );
}

#[test]
fn invalid_utf8_is_an_encoding_error() {
    assert_eq!(classify_line(&[0x64, 0xff, 0x0a]), Err(StreamError::Encoding));
    let mut conv = Conversation::new("m".to_string());
    let (r, _, _) = run_turn(&mut conv, "q", &[&[0xc3, 0x28, b'\n']]);
    assert_eq!(r, Err(StreamError::Encoding));
    assert_eq!(conv.messages().len(), 1);
}

#[test]
fn fragments_accumulate_in_order() {
    let body: String = ["one ", "two ", "three"].iter().map(|f| delta_line(f)).collect::<String>()
        + "data: [DONE]\n";
    let mut conv = Conversation::new("m".to_string());
    let (r, shown, content) = run_turn(&mut conv, "q", &[body.as_bytes()]);
    assert_eq!(r, Ok(()));
    assert_eq!(shown, vec!["one ", "two ", "three"]);
    assert_eq!(content, "one two three");
}

#[test]
fn round_trip_hello_world() {
    let body: String = ["Hel", "lo, ", "world"].iter().map(|f| delta_line(f)).collect::<String>()
        + "data: [DONE]\n";
    let mut conv = Conversation::new("gpt-3.5-turbo".to_string());
    let (r, shown, content) = run_turn(&mut conv, "hi", &[body.as_bytes()]);
    assert_eq!(r, Ok(()));
    assert_eq!(shown.concat(), "Hello, world");
    assert_eq!(content, "Hello, world");
    assert_eq!(
        contents(&conv),
        vec![
            (Some(Role::User), Some("hi".to_string())),
            (Some(Role::Assistant), Some("Hello, world".to_string())),
        ]
    );
}

#[test]
fn chunk_boundaries_do_not_matter() {
    let body: String = ["Hé", "llo ", "wörld"].iter().map(|f| delta_line(f)).collect::<String>()
        + "\n  \ndata: [DONE]\n";
    let bytes = body.as_bytes();
    let mut whole = Conversation::new("m".to_string());
    let expected = run_turn(&mut whole, "q", &[bytes]);
    assert_eq!(expected.0, Ok(()));
    for cut in 0..=bytes.len() {
        let mut conv = Conversation::new("m".to_string());
        let got = run_turn(&mut conv, "q", &[&bytes[..cut], &bytes[cut..]]);
        assert_eq!(got, expected, "cut at {}", cut);
        assert_eq!(contents(&conv), contents(&whole));
    }
    let singles: Vec<&[u8]> = bytes.chunks(1).collect();
    let mut conv = Conversation::new("m".to_string());
    assert_eq!(run_turn(&mut conv, "q", &singles), expected);
}

#[test]
fn missing_choice_fails_the_turn() {
    let body = format!("{}data: {{\"id\":\"c\",\"choices\":[]}}\ndata: [DONE]\n", delta_line("x"));
    let mut conv = Conversation::new("m".to_string());
    let (r, shown, _) = run_turn(&mut conv, "q", &[body.as_bytes()]);
    assert_eq!(r, Err(StreamError::ProtocolDecode));
    assert_eq!(shown, vec!["x"]);
    assert_eq!(contents(&conv), vec![(Some(Role::User), Some("q".to_string()))]);
}

#[test]
fn undecodable_line_fails_the_turn() {
    let mut conv = Conversation::new("m".to_string());
    let (r, _, _) = run_turn(&mut conv, "q", &[b"data: {not json\ndata: [DONE]\n"]);
    assert_eq!(r, Err(StreamError::ProtocolDecode));
    assert_eq!(conv.messages().len(), 1);
}

#[test]
fn choice_without_content_shows_nothing() {
    let body = "data: {\"id\":\"c\",\"choices\":[{\"delta\":{\"role\":\"assistant\"},\"index\":0}]}\n\
                data: {\"id\":\"c\",\"choices\":[{\"delta\":{\"content\":\"\"},\"index\":0}]}\n\
                data: [DONE]\n";
    let mut conv = Conversation::new("m".to_string());
    let (r, shown, content) = run_turn(&mut conv, "q", &[body.as_bytes()]);
    assert_eq!(r, Ok(()));
    assert_eq!(shown, vec![String::new()]);
    assert_eq!(content, "");
    assert_eq!(contents(&conv)[1], (Some(Role::Assistant), Some(String::new())));
}

#[test]
fn lines_after_sentinel_are_not_read() {
    let body = format!("{}data: [DONE]\n{}", delta_line("a"), delta_line("b"));
    let mut conv = Conversation::new("m".to_string());
    let (r, shown, content) = run_turn(&mut conv, "q", &[body.as_bytes()]);
    assert_eq!(r, Ok(()));
    assert_eq!(shown, vec!["a"]);
    assert_eq!(content, "a");
}

#[test]
fn unterminated_last_line_is_read() {
    let body = format!("{}data: [DONE]", delta_line("z"));
    let mut conv = Conversation::new("m".to_string());
    let (r, _, content) = run_turn(&mut conv, "q", &[body.as_bytes()]);
    assert_eq!(r, Ok(()));
    assert_eq!(content, "z");
    assert_eq!(conv.messages().len(), 2);
}

#[test]
fn stream_without_sentinel_is_incomplete() {
    let body = delta_line("partial");
    let mut conv = Conversation::new("m".to_string());
    let (r, shown, _) = run_turn(&mut conv, "q", &[body.as_bytes()]);
    assert_eq!(r, Err(StreamError::Incomplete));
    assert_eq!(shown, vec!["partial"]);
    assert_eq!(conv.messages().len(), 1);
}

#[test]
fn two_turns_keep_transcript_order() {
    let mut conv = Conversation::new("m".to_string());
    let body = format!("{}data: [DONE]\n", delta_line("hello"));
    assert_eq!(run_turn(&mut conv, "hi", &[body.as_bytes()]).0, Ok(()));
    let st = begin_turn(&mut conv, "bye");
    assert_eq!(st.status_now(), TurnStatus::Streaming);
    assert_eq!(
        contents(&conv),
        vec![
            (Some(Role::User), Some("hi".to_string())),
            (Some(Role::Assistant), Some("hello".to_string())),
            (Some(Role::User), Some("bye".to_string())),
        ]
    );
    assert!(conv.stream());
    assert_eq!(conv.model(), "m");
}

#[test]
fn first_fragment_reads_first_choice() {
    let resp = CompletionResponse {
        id: "a".to_string(),
        choices: vec![
            Choice { delta: Message { role: None, content: Some("x".to_string()) }, index: 0 },
            Choice { delta: Message { role: None, content: Some("y".to_string()) }, index: 1 },
        ],
    };
    assert_eq!(first_fragment(&resp), Ok(Some(&"x".to_string())));
    let empty = CompletionResponse { id: "a".to_string(), choices: vec![] };
    assert_eq!(first_fragment(&empty), Err(StreamError::ProtocolDecode));
}

#[test]
fn failed_turn_keeps_earlier_turns() {
    let mut conv = Conversation::new("m".to_string());
    let ok = format!("{}data: [DONE]\n", delta_line("first"));
    assert_eq!(run_turn(&mut conv, "a", &[ok.as_bytes()]).0, Ok(()));
    let bad = "data: {\"id\":\"c\",\"choices\":[]}\n";
    assert_eq!(run_turn(&mut conv, "b", &[bad.as_bytes()]).0, Err(StreamError::ProtocolDecode));
    assert_eq!(conv.messages().len(), 3);
    assert_eq!(conv.messages()[1].content.as_deref(), Some("first"));
    let mut st = StreamState::new();
    assert_eq!(st.end_of_stream(), None);
}
