use open_ai_rust::sse::{
    feed_chunk, parse_next_event, strip_one_leading_space, strip_trailing_cr, SseEvent,
};

#[test]
fn feed_chunk_splits_events_across_chunks() {
    let mut buf = String::new();
    let first = feed_chunk(&mut buf, b"data: {\"a\":1}\n\ndata: {\"b\"").unwrap();
    assert_eq!(first.payloads, vec!["{\"a\":1}".to_string()]);
    assert!(!first.done);
    assert_eq!(buf, "data: {\"b\"");
    let second = feed_chunk(&mut buf, b":2}\n\ndata: [DONE]\n\ndata: late\n\n").unwrap();
    assert_eq!(second.payloads, vec!["{\"b\":2}".to_string()]);
    assert!(second.done);
}

#[test]
fn feed_chunk_decodes_multibyte_text() {
    let mut buf = String::new();
    let out = feed_chunk(&mut buf, "data: h\u{e9}llo\n\n".as_bytes()).unwrap();
    assert_eq!(out.payloads, vec!["h\u{e9}llo".to_string()]);
    assert_eq!(buf, "");
}

#[test]
fn feed_chunk_refuses_invalid_utf8_and_keeps_buffer() {
    let mut buf = "data: x".to_string();
    assert!(feed_chunk(&mut buf, &[0xff, 0xfe]).is_err());
    assert_eq!(buf, "data: x");
}

#[test]
fn line_helpers() {
    assert_eq!(strip_trailing_cr("abc\r"), "abc");
    assert_eq!(strip_trailing_cr("abc"), "abc");
    assert_eq!(strip_one_leading_space("  x"), " x");
    assert_eq!(strip_one_leading_space("x"), "x");
}

fn drain_all(buf: &mut String) -> Vec<SseEvent> {
    let mut out = Vec::new();
    while let Some(e) = parse_next_event(buf) {
        out.push(e);
    }
    out
}

#[test]
fn one_call_drains_empty_events_up_to_the_first_with_data() {
    let mut buf = "event: ping\n\n: comment\n\ndata: a\n\ndata: b".to_string();
    assert_eq!(parse_next_event(&mut buf), Some(SseEvent::Data("a".to_string())));
    assert_eq!(buf, "data: b");
    let mut buf = "event: ping\n\nid: 1\n\ndata: b".to_string();
    assert_eq!(parse_next_event(&mut buf), None);
    assert_eq!(buf, "data: b");
}

#[test]
fn draining_past_done_in_pieces_matches_draining_whole() {
    let whole = "data: a\n\ndata: [DONE]\n\ndata: b\n\nevent: x\n\ndata: c";
    let mut one = whole.to_string();
    let all = drain_all(&mut one);
    for cut in 0..whole.len() {
        let mut buf = whole[..cut].to_string();
        let mut got = drain_all(&mut buf);
        buf.push_str(&whole[cut..]);
        got.extend(drain_all(&mut buf));
        assert_eq!(got, all);
        assert_eq!(buf, one);
    }
    assert_eq!(
        all,
        vec![
            SseEvent::Data("a".to_string()),
            SseEvent::Done,
            SseEvent::Data("b".to_string()),
        ]
    );
    assert_eq!(one, "data: c");
}
