use xiaoai_client::instruction::{
    decode_log_line, extract_song_name, handle_line_event, FileEvent, LogPayload,
};
use xiaoai_client::protocol::PayloadValue;

const SONG_PREFIX: &str = "\u{64ad}\u{653e}\u{6b4c}\u{66f2}";

fn event_payload_text(payload: &Option<PayloadValue>) -> &str {
    match payload {
        Some(PayloadValue::Text { value }) => value.as_str(),
        _ => panic!("expected a text payload"),
    }
}

#[test]
fn extract_song_name_matches_prefix() {
    let text = format!("{}\u{6674}\u{5929}", SONG_PREFIX);
    assert_eq!(extract_song_name(&text), Some("\u{6674}\u{5929}".to_string()));
}

#[test]
fn extract_song_name_trims_whitespace() {
    let text = format!("{}  \u{6674}\u{5929} ", SONG_PREFIX);
    assert_eq!(extract_song_name(&text), Some("\u{6674}\u{5929}".to_string()));
}

#[test]
fn extract_song_name_trims_all_unicode_whitespace() {
    let remainder = "\u{000C}\u{00A0}\u{2003}\u{6674}\u{5929}\u{2028}\u{3000}";
    let text = format!("{}{}", SONG_PREFIX, remainder);
    assert_eq!(extract_song_name(&text), Some(remainder.trim().to_string()));
    assert_eq!(extract_song_name(&text), Some("\u{6674}\u{5929}".to_string()));
}

#[test]
fn extract_song_name_without_prefix_is_none() {
    assert_eq!(extract_song_name("\u{6674}\u{5929}"), None);
    assert_eq!(extract_song_name(""), None);
}

#[test]
fn extract_song_name_prefix_alone_is_empty() {
    assert_eq!(extract_song_name(SONG_PREFIX), Some(String::new()));
}

#[test]
fn final_recognize_line_yields_song() {
    let line = "{\"header\":{\"name\":\"RecognizeResult\"},\"payload\":{\"is_final\":true,\
                \"results\":[{\"text\":\"\\u64ad\\u653e\\u6b4c\\u66f2\\u6674\\u5929\"}]}}";
    let out = handle_line_event(&FileEvent::NewLine { line: line.to_string() });
    assert_eq!(out.event.tag, "instruction");
    assert_eq!(event_payload_text(&out.event.payload), line);
    assert_eq!(out.songs, vec!["\u{6674}\u{5929}".to_string()]);
}

#[test]
fn undecodable_line_still_emits_one_event() {
    let line = "not json at all {{{";
    let out = handle_line_event(&FileEvent::NewLine { line: line.to_string() });
    assert_eq!(out.event.tag, "instruction");
    assert_eq!(event_payload_text(&out.event.payload), line);
    assert!(out.decoded.is_none());
    assert!(out.songs.is_empty());
}

#[test]
fn partial_result_takes_no_action() {
    let line = "{\"header\":{\"name\":\"RecognizeResult\"},\"payload\":{\"is_final\":false,\
                \"results\":[{\"text\":\"\\u64ad\\u653e\\u6b4c\\u66f2\\u6674\\u5929\"}]}}";
    let out = handle_line_event(&FileEvent::NewLine { line: line.to_string() });
    assert_eq!(out.event.tag, "instruction");
    assert!(out.decoded.is_some());
    assert!(out.songs.is_empty());
}

#[test]
fn new_file_event_emits_marker_and_nothing_else() {
    let out = handle_line_event(&FileEvent::NewFile);
    assert_eq!(out.event.tag, "instruction");
    assert_eq!(event_payload_text(&out.event.payload), "NewFile");
    assert!(out.decoded.is_none());
    assert!(out.songs.is_empty());
}

#[test]
fn other_message_kind_takes_no_action() {
    let line = "{\"header\":{\"name\":\"PlayState\"},\"payload\":{\"volume\":10}}";
    let out = handle_line_event(&FileEvent::NewLine { line: line.to_string() });
    let decoded = out.decoded.expect("envelope should decode");
    assert_eq!(decoded.header.name, "PlayState");
    assert!(out.songs.is_empty());
}

#[test]
fn every_final_match_triggers_independently() {
    let line = "{\"header\":{\"name\":\"RecognizeResult\"},\"payload\":{\"is_final\":true,\
                \"results\":[{\"text\":\"\\u64ad\\u653e\\u6b4c\\u66f2A\"},\
                {\"text\":\"no match\"},{\"text\":\"\\u64ad\\u653e\\u6b4c\\u66f2B\"}]}}";
    let out = handle_line_event(&FileEvent::NewLine { line: line.to_string() });
    assert_eq!(out.songs, vec!["A".to_string(), "B".to_string()]);
}

#[test]
fn missing_payload_keeps_envelope() {
    let line = "{\"header\":{\"name\":\"RecognizeResult\"}}";
    let decoded = decode_log_line(line).expect("envelope should decode");
    assert_eq!(decoded.header.name, "RecognizeResult");
    assert!(matches!(decoded.payload, LogPayload::Unrecognized));
}

#[test]
fn missing_header_name_fails_decode() {
    assert!(decode_log_line("{\"payload\":{}}").is_none());
    assert!(decode_log_line("{\"header\":{}}").is_none());
    assert!(decode_log_line("42").is_none());
}

#[test]
fn malformed_results_fall_back_to_unrecognized() {
    let line = "{\"header\":{\"name\":\"RecognizeResult\"},\"payload\":{\"is_final\":true,\
                \"results\":[{\"no_text\":1}]}}";
    let decoded = decode_log_line(line).expect("envelope should decode");
    assert!(matches!(decoded.payload, LogPayload::Unrecognized));
}
