use xiaoai_client::protocol::{kws_event, playing_event, DataValue, PayloadValue, Response};

fn raw_payload_text(payload: &Option<PayloadValue>) -> &str {
    match payload {
        Some(PayloadValue::Raw { json }) => json.as_str(),
        _ => panic!("expected a raw payload"),
    }
}

#[test]
fn playing_monitor_event_is_tagged_playing() {
    let event = playing_event("{\"state\":\"paused\"}".to_string());
    assert_eq!(event.tag, "playing");
    assert_eq!(raw_payload_text(&event.payload), "{\"state\":\"paused\"}");
}

#[test]
fn wake_word_monitor_event_is_tagged_kws() {
    let event = kws_event("{\"keyword\":\"hey\"}".to_string());
    assert_eq!(event.tag, "kws");
    assert_eq!(raw_payload_text(&event.payload), "{\"keyword\":\"hey\"}");
}

#[test]
fn response_builders_fix_every_field() {
    let ok = Response::success();
    assert!(ok.success && ok.data.is_none() && ok.error.is_none());
    let with_data = Response::from_data(DataValue::Text { value: "v".to_string() });
    assert!(with_data.success && with_data.error.is_none());
    let failed = Response::failure("why");
    assert!(!failed.success && failed.data.is_none());
    assert_eq!(failed.error.as_deref(), Some("why"));
}
