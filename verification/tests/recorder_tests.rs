use xiaoai_client::recorder::{RecorderState, RECORD_STREAM_TAG};

#[test]
fn captured_chunks_stream_out_in_order_until_stop() {
    let mut recorder = RecorderState::new();
    recorder.start();
    let chunks: Vec<Vec<u8>> = vec![vec![1, 2, 3], vec![], vec![9]];
    let mut sent = Vec::new();
    for chunk in &chunks {
        let message = recorder.on_chunk(chunk.clone()).expect("active recorder must emit");
        assert_eq!(message.tag, RECORD_STREAM_TAG);
        sent.push(message.bytes);
    }
    assert_eq!(sent, chunks);
    recorder.stop();
    assert!(recorder.on_chunk(vec![7]).is_none());
}

#[test]
fn chunks_before_start_are_dropped() {
    let recorder = RecorderState::new();
    assert!(recorder.on_chunk(vec![1]).is_none());
}

#[test]
fn record_stream_tag_is_fixed() {
    assert_eq!(RECORD_STREAM_TAG, "record");
}
