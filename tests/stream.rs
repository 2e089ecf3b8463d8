use minusagent::stream::{completion_text, StreamState};

fn frame(s: &str) -> String {
    format!("data: {{\"choices\":[{{\"delta\":{{\"content\":\"{}\"}}}}]}}\n", s)
}

#[test]
fn interrupted_stream_keeps_partial_content() {
    let mut st = StreamState::new();
    assert_eq!(st.feed(&frame("Hel")), vec!["Hel".to_string()]);
    assert_eq!(st.feed(&frame("lo")), vec!["lo".to_string()]);
    st.interrupt();
    assert_eq!(st.finish(), ("Hello".to_string(), true));
}

#[test]
fn frames_split_across_chunks_and_done_marker() {
    let mut st = StreamState::new();
    let whole = format!("{}{}data: [DONE]\n", frame("a"), frame("b"));
    let (left, right) = whole.split_at(10);
    assert!(st.feed(left).is_empty());
    assert_eq!(st.feed(right), vec!["a".to_string(), "b".to_string()]);
    assert_eq!(st.buffer, "");
    assert_eq!(st.finish(), ("ab".to_string(), false));
}

#[test]
fn non_data_and_broken_frames_are_skipped() {
    let mut st = StreamState::new();
    let pieces = st.feed(": keep-alive\nevent: x\ndata: {not json}\ndata: {\"choices\":[]}\n");
    assert!(pieces.is_empty());
    assert_eq!(st.content, "");
}

#[test]
fn whole_reply_content() {
    assert_eq!(completion_text("{\"choices\":[{\"message\":{\"content\":\"hi\"}}]}"), "hi");
    assert_eq!(completion_text("{\"choices\":[]}"), "");
    assert_eq!(completion_text("oops"), "");
}
