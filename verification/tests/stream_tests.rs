use aien_benchmarks::stream::{add_frame_tokens, count_completion_tokens, count_data_events, SseFramer};

#[test]
fn framer_splits_at_blank_lines() {
    let mut f = SseFramer::new();
    assert!(f.push_chunk(b"data: {\"a\":1}\n").is_empty());
    let frames = f.push_chunk(b"\ndata: {\"b\":2}\n\ndata: [DONE]");
    assert_eq!(frames, vec!["data: {\"a\":1}\n\n".to_string(), "data: {\"b\":2}\n\n".to_string()]);
    let frames = f.push_chunk(b"\n\n");
    assert_eq!(frames, vec!["data: [DONE]\n\n".to_string()]);
    assert!(f.push_chunk(b"").is_empty());
}

#[test]
fn framer_is_independent_of_chunking() {
    let stream: &[u8] = b"data: a\n\ndata: b\n\n: ping\n\ndata: c\n\ndata: [DONE]\n\n";
    let mut whole = SseFramer::new();
    let all = whole.push_chunk(stream);
    for cut in 0..stream.len() {
        let mut f = SseFramer::new();
        let mut got = f.push_chunk(&stream[..cut]);
        got.extend(f.push_chunk(&stream[cut..]));
        assert_eq!(got, all);
    }
    assert_eq!(all.len(), 5);
}

#[test]
fn framer_replaces_invalid_utf8() {
    let mut f = SseFramer::new();
    let frames = f.push_chunk(b"data: \xff\n\n");
    assert_eq!(frames, vec!["data: \u{FFFD}\n\n".to_string()]);
}

#[test]
fn data_events_per_frame() {
    assert_eq!(count_data_events("data: {\"x\":1}\n\n"), 1);
    assert_eq!(count_data_events("  data: one\r\ndata: two\n"), 2);
    assert_eq!(count_data_events("data: [DONE]\n\n"), 0);
    assert_eq!(count_data_events("data:no-space\n"), 0);
    assert_eq!(count_data_events("data: \n"), 0);
    assert_eq!(count_data_events(""), 0);
}

#[test]
fn completion_tokens_stop_at_done() {
    assert_eq!(count_completion_tokens(b"data: {\"t\":1}\n\ndata: {\"t\":2}\n\n"), 2);
    assert_eq!(count_completion_tokens(b"data: a\ndata: [DONE]\ndata: b\n"), 1);
    assert_eq!(count_completion_tokens(b"data:data: [DONE]\ndata: x\n"), 0);
    assert_eq!(count_completion_tokens(b"event: x\ndata:\n"), 1);
    assert_eq!(count_completion_tokens(b" data: x\n"), 0);
    assert_eq!(count_completion_tokens(b""), 0);
}

#[test]
fn streaming_total_over_reads() {
    let mut f = SseFramer::new();
    let first = f.push_chunk(b"data: {\"t\":1}\n\ndata: {\"t\":2}\n\nda");
    let total = add_frame_tokens(0, &first).unwrap();
    assert_eq!(total, 2);
    let second = f.push_chunk(b"ta: {\"t\":3}\n\n: keep-alive\n\ndata: [DONE]\n\n");
    let total = add_frame_tokens(total, &second).unwrap();
    assert_eq!(total, 3);
    assert_eq!(add_frame_tokens(usize::MAX, &second), None);
    assert_eq!(add_frame_tokens(usize::MAX, &Vec::new()), Some(usize::MAX));
}
