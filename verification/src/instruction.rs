//! The instruction pipeline: log lines in, playback requests out.
//!
//! Every line-event from the log tailer is forwarded outward once, as an
//! "instruction" event carrying the raw line. A "new line" event is then
//! decoded as a structured log message; a final recognition result yields
//! one playback request for every recognized text that carries the
//! trigger phrase, in order. Decode failures, unrecognized message kinds
//! and partial (non-final) results yield no action and never fail the
//! pipeline.

use vstd::prelude::*;
use vstd::string::StrSliceExecFns;

use crate::json::{
    json_array_of, json_as_array, json_as_bool, json_as_str, json_bool_of, json_field_of,
    json_get, json_parse_of, json_str_of, parse_json, spec_string_fields, string_fields,
};
use crate::protocol::{EventMsg, PayloadValue};

verus! {

/// One event from the log-tailing collaborator.
#[derive(Clone, Debug)]
pub enum FileEvent {
    NewFile,
    NewLine { line: String },
}

/// The kind tag of one structured log message.
#[derive(Clone, Debug)]
pub struct LogHeader {
    pub name: String,
}

/// One entry of a recognition result list.
#[derive(Clone, Debug)]
pub struct RecognizeItem {
    pub text: String,
}

/// The payload of one structured log message: the one recognized variant,
/// or anything else, kept undecoded so that unknown kinds never fail the
/// envelope decode.
#[derive(Clone, Debug)]
pub enum LogPayload {
    Recognize { is_final: bool, results: Vec<RecognizeItem> },
    Unrecognized,
}

/// Structured decode of one instruction-log line.
#[derive(Clone, Debug)]
pub struct LogMessage {
    pub header: LogHeader,
    pub payload: LogPayload,
}

/// The mathematical content of a decoded payload.
pub enum LogPayloadModel {
    Recognize { is_final: bool, texts: Seq<Seq<char>> },
    Unrecognized,
}

/// The mathematical content of a decoded log message.
pub struct LogMessageModel {
    pub name: Seq<char>,
    pub payload: LogPayloadModel,
}

/// What a payload value holds.
pub open spec fn spec_payload_model(p: LogPayload) -> LogPayloadModel {
    match p {
        LogPayload::Recognize { is_final, results } => LogPayloadModel::Recognize {
            is_final,
            texts: results@.map_values(|it: RecognizeItem| it.text@),
        },
        LogPayload::Unrecognized => LogPayloadModel::Unrecognized,
    }
}

/// What a decoded message holds.
pub open spec fn spec_message_model(m: LogMessage) -> LogMessageModel {
    LogMessageModel { name: m.header.name@, payload: spec_payload_model(m.payload) }
}

/// The payload that a recognition-result candidate decodes to: a
/// boolean `is_final` and a `results` array whose every entry carries a
/// string `text` — any other shape is `Unrecognized`.
pub open spec fn spec_decode_payload(p: serde_json::Value) -> LogPayloadModel {
    match json_field_of(p, "is_final"@) {
        None => LogPayloadModel::Unrecognized,
        Some(f) => match json_bool_of(f) {
            None => LogPayloadModel::Unrecognized,
            Some(is_final) => match json_field_of(p, "results"@) {
                None => LogPayloadModel::Unrecognized,
                Some(entries) => match json_array_of(entries) {
                    None => LogPayloadModel::Unrecognized,
                    Some(elements) => match spec_string_fields(elements, "text"@) {
                        None => LogPayloadModel::Unrecognized,
                        Some(texts) => LogPayloadModel::Recognize { is_final, texts },
                    },
                },
            },
        },
    }
}

/// What one log line decodes to: `None` unless the line is well-formed
/// JSON whose `header.name` is a string; the payload member, when
/// present, decodes as a recognition result or stays `Unrecognized`.
pub open spec fn spec_decode_log_line(line: Seq<char>) -> Option<LogMessageModel> {
    match json_parse_of(line) {
        None => None,
        Some(v) => match json_field_of(v, "header"@) {
            None => None,
            Some(h) => match json_field_of(h, "name"@) {
                None => None,
                Some(n) => match json_str_of(n) {
                    None => None,
                    Some(name) => Some(
                        LogMessageModel {
                            name,
                            payload: match json_field_of(v, "payload"@) {
                                None => LogPayloadModel::Unrecognized,
                                Some(p) => spec_decode_payload(p),
                            },
                        },
                    ),
                },
            },
        },
    }
}

/// The whitespace trimmed from the edges of an extracted song name: the
/// Unicode `White_Space` characters, the same set that `str::trim`
/// removes.
pub open spec fn is_space_char(c: char) -> bool {
    c == '\u{0009}' || c == '\u{000A}' || c == '\u{000B}' || c == '\u{000C}' || c == '\u{000D}'
        || c == '\u{0020}' || c == '\u{0085}' || c == '\u{00A0}' || c == '\u{1680}'
        || c == '\u{2000}' || c == '\u{2001}' || c == '\u{2002}' || c == '\u{2003}'
        || c == '\u{2004}' || c == '\u{2005}' || c == '\u{2006}' || c == '\u{2007}'
        || c == '\u{2008}' || c == '\u{2009}' || c == '\u{200A}' || c == '\u{2028}'
        || c == '\u{2029}' || c == '\u{202F}' || c == '\u{205F}' || c == '\u{3000}'
}

pub open spec fn spec_trim_start(s: Seq<char>) -> Seq<char>
    decreases s.len(),
{
    if s.len() > 0 && is_space_char(s.first()) {
        spec_trim_start(s.drop_first())
    } else {
        s
    }
}

pub open spec fn spec_trim_end(s: Seq<char>) -> Seq<char>
    decreases s.len(),
{
    if s.len() > 0 && is_space_char(s.last()) {
        spec_trim_end(s.drop_last())
    } else {
        s
    }
}

/// `s` without leading and trailing whitespace.
pub open spec fn spec_trim(s: Seq<char>) -> Seq<char> {
    spec_trim_end(spec_trim_start(s))
}

/// The trigger phrase that marks a recognized utterance as a playback
/// request; what follows it is the song name.
pub open spec fn spec_song_prefix() -> Seq<char> {
    "\u{64ad}\u{653e}\u{6b4c}\u{66f2}"@
}

/// The song name carried by one recognized text: the text after the
/// trigger-phrase prefix, trimmed — or nothing when the prefix is absent.
pub open spec fn spec_extract_song_name(text: Seq<char>) -> Option<Seq<char>> {
    let p = spec_song_prefix();
    if text.len() >= p.len() && text.subrange(0, p.len() as int) == p {
        Some(spec_trim(text.subrange(p.len() as int, text.len() as int)))
    } else {
        None
    }
}

proof fn lemma_trim_start_skip(s: Seq<char>, i: int)
    requires
        0 <= i <= s.len(),
        forall|j: int| 0 <= j < i ==> is_space_char(s[j]),
    ensures
        spec_trim_start(s) == spec_trim_start(s.subrange(i, s.len() as int)),
    decreases i,
{
    if i > 0 {
        let t = s.drop_first();
        assert(t =~= s.subrange(1, s.len() as int));
        assert(t.subrange(i - 1, t.len() as int) =~= s.subrange(i, s.len() as int));
        lemma_trim_start_skip(t, i - 1);
    } else {
        assert(s.subrange(0, s.len() as int) =~= s);
    }
}

proof fn lemma_trim_end_skip(s: Seq<char>, e: int)
    requires
        0 <= e <= s.len(),
        forall|j: int| e <= j < s.len() ==> is_space_char(s[j]),
    ensures
        spec_trim_end(s) == spec_trim_end(s.subrange(0, e)),
    decreases s.len() - e,
{
    if e < s.len() {
        let t = s.drop_last();
        assert(t =~= s.subrange(0, s.len() - 1));
        assert(t.subrange(0, e) =~= s.subrange(0, e));
        lemma_trim_end_skip(t, e);
    } else {
        assert(s.subrange(0, s.len() as int) =~= s);
    }
}

/// True exactly for the characters that trimming removes.
fn is_space(c: char) -> (r: bool)
    ensures
        r == is_space_char(c),
{
    c == '\u{0009}' || c == '\u{000A}' || c == '\u{000B}' || c == '\u{000C}' || c == '\u{000D}'
        || c == '\u{0020}' || c == '\u{0085}' || c == '\u{00A0}' || c == '\u{1680}'
        || c == '\u{2000}' || c == '\u{2001}' || c == '\u{2002}' || c == '\u{2003}'
        || c == '\u{2004}' || c == '\u{2005}' || c == '\u{2006}' || c == '\u{2007}'
        || c == '\u{2008}' || c == '\u{2009}' || c == '\u{200A}' || c == '\u{2028}'
        || c == '\u{2029}' || c == '\u{202F}' || c == '\u{205F}' || c == '\u{3000}'
}

/// `text` without leading and trailing whitespace.
fn trim_text(text: &str) -> (r: String)
    ensures
        r@ == spec_trim(text@),
{
    let n = text.unicode_len();
    let mut start: usize = 0;
    while start < n && is_space(text.get_char(start))
        invariant
            n == text@.len(),
            start <= n,
            forall|j: int| 0 <= j < start ==> is_space_char(text@[j]),
        decreases n - start,
    {
        start = start + 1;
    }
    let mut end: usize = n;
    while end > start && is_space(text.get_char(end - 1))
        invariant
            n == text@.len(),
            start <= end <= n,
            forall|j: int| end <= j < n ==> is_space_char(text@[j]),
        decreases end,
    {
        end = end - 1;
    }
    proof {
        lemma_trim_start_skip(text@, start as int);
        let t = text@.subrange(start as int, n as int);
        assert(spec_trim_start(t) == t);
        lemma_trim_end_skip(t, end - start);
        assert(t.subrange(0, end - start) =~= text@.subrange(start as int, end as int));
        assert(spec_trim_end(t.subrange(0, end - start)) == t.subrange(0, end - start));
    }
    text.substring_char(start, end).to_owned()
}

/// Extract the song name from one recognized text: the part after the
/// trigger phrase, trimmed. Texts without the trigger phrase yield no
/// action.
pub fn extract_song_name(text: &str) -> (r: Option<String>)
    ensures
        r matches Some(song) ==> spec_extract_song_name(text@) == Some(song@),
        r is None ==> spec_extract_song_name(text@) is None,
{
    let prefix = "\u{64ad}\u{653e}\u{6b4c}\u{66f2}";
    proof {
        reveal_strlit("\u{64ad}\u{653e}\u{6b4c}\u{66f2}");
    }
    let plen = prefix.unicode_len();
    let tlen = text.unicode_len();
    if tlen < plen {
        return None;
    }
    let mut i: usize = 0;
    while i < plen
        invariant
            plen == spec_song_prefix().len(),
            plen <= tlen == text@.len(),
            i <= plen,
            prefix@ == spec_song_prefix(),
            forall|j: int| 0 <= j < i ==> text@[j] == spec_song_prefix()[j],
        decreases plen - i,
    {
        if text.get_char(i) != prefix.get_char(i) {
            return None;
        }
        i = i + 1;
    }
    proof {
        assert(text@.subrange(0, plen as int) =~= spec_song_prefix());
    }
    let rest = text.substring_char(plen, tlen);
    Some(trim_text(rest))
}

/// The songs extracted from an ordered list of recognized texts: one
/// entry per text that carries the trigger phrase, in order, none
/// dropped and none deduplicated.
pub open spec fn spec_extracted_songs(texts: Seq<Seq<char>>) -> Seq<Seq<char>>
    decreases texts.len(),
{
    if texts.len() == 0 {
        Seq::empty()
    } else {
        spec_extracted_songs(texts.drop_last()) + match spec_extract_song_name(texts.last()) {
            Some(s) => seq![s],
            None => Seq::empty(),
        }
    }
}

/// The playback requests that one decoded log message gives rise to:
/// none unless the message is a final recognition result, and then one
/// request per matched text, in order.
pub open spec fn spec_message_songs(msg: LogMessage) -> Seq<Seq<char>> {
    if msg.header.name@ == "RecognizeResult"@ {
        match msg.payload {
            LogPayload::Recognize { is_final, results } => if is_final {
                spec_extracted_songs(results@.map_values(|it: RecognizeItem| it.text@))
            } else {
                Seq::empty()
            },
            LogPayload::Unrecognized => Seq::empty(),
        }
    } else {
        Seq::empty()
    }
}

/// A partial (non-final) recognition result never triggers a resolver
/// call, whatever its text content.
pub proof fn lemma_partial_result_never_plays(msg: LogMessage)
    requires
        msg.payload matches LogPayload::Recognize { is_final, .. } && !is_final,
    ensures
        spec_message_songs(msg) == Seq::<Seq<char>>::empty(),
{
}

/// The song names that `msg` asks to play, in order.
pub fn song_requests(msg: &LogMessage) -> (r: Vec<String>)
    ensures
        r.deep_view() == spec_message_songs(*msg),
{
    let tag: String = "RecognizeResult".to_owned();
    if !(msg.header.name == tag) {
        return Vec::new();
    }
    match &msg.payload {
        LogPayload::Recognize { is_final, results } => {
            if !*is_final {
                Vec::new()
            } else {
                let ghost texts = results@.map_values(|it: RecognizeItem| it.text@);
                let mut out: Vec<String> = Vec::new();
                let mut i: usize = 0;
                proof {
                    assert(texts.take(0) =~= Seq::<Seq<char>>::empty());
                }
                while i < results.len()
                    invariant
                        i <= results@.len(),
                        texts == results@.map_values(|it: RecognizeItem| it.text@),
                        out.deep_view() == spec_extracted_songs(texts.take(i as int)),
                    decreases results@.len() - i,
                {
                    proof {
                        assert(texts.take(i + 1).drop_last() =~= texts.take(i as int));
                        assert(texts.take(i + 1).last() == results@[i as int].text@);
                    }
                    match extract_song_name(results[i].text.as_str()) {
                        Some(song) => out.push(song),
                        None => {},
                    }
                    i = i + 1;
                }
                proof {
                    assert(texts.take(results@.len() as int) =~= texts);
                }
                out
            }
        },
        LogPayload::Unrecognized => Vec::new(),
    }
}

/// Decode one log line as a structured message. The envelope requires a
/// `header.name` string; any payload that is not a well-formed
/// recognition result is kept as `Unrecognized` rather than failing the
/// decode. Ill-formed JSON or a missing envelope yields `None`; the
/// caller drops the line and nothing else happens.
pub fn decode_log_line(line: &str) -> (r: Option<LogMessage>)
    ensures
        match r {
            Some(m) => spec_decode_log_line(line@) == Some(spec_message_model(m)),
            None => spec_decode_log_line(line@) is None,
        },
{
    let parsed = match parse_json(line) {
        Some(v) => v,
        None => {
            return None;
        },
    };
    let header = match json_get(&parsed, "header") {
        Some(h) => h,
        None => {
            return None;
        },
    };
    let name = match json_get(header, "name") {
        Some(n) => match json_as_str(n) {
            Some(s) => s,
            None => {
                return None;
            },
        },
        None => {
            return None;
        },
    };
    let payload = match json_get(&parsed, "payload") {
        Some(p) => decode_recognize_payload(p),
        None => LogPayload::Unrecognized,
    };
    Some(LogMessage { header: LogHeader { name }, payload })
}

/// Decode the payload of a recognition-result message: a final flag and
/// an ordered list of recognized texts. Any other shape is
/// `Unrecognized`.
fn decode_recognize_payload(payload: &serde_json::Value) -> (r: LogPayload)
    ensures
        spec_payload_model(r) == spec_decode_payload(*payload),
{
    let is_final = match json_get(payload, "is_final") {
        Some(f) => match json_as_bool(f) {
            Some(b) => b,
            None => {
                return LogPayload::Unrecognized;
            },
        },
        None => {
            return LogPayload::Unrecognized;
        },
    };
    let entries = match json_get(payload, "results") {
        Some(r) => match json_as_array(r) {
            Some(a) => a,
            None => {
                return LogPayload::Unrecognized;
            },
        },
        None => {
            return LogPayload::Unrecognized;
        },
    };
    let texts = match string_fields(entries, "text") {
        Some(t) => t,
        None => {
            return LogPayload::Unrecognized;
        },
    };
    let mut results: Vec<RecognizeItem> = Vec::new();
    let mut i: usize = 0;
    while i < texts.len()
        invariant
            i <= texts@.len(),
            results@.len() == i,
            forall|j: int| 0 <= j < i ==> results@[j].text == texts@[j],
        decreases texts@.len() - i,
    {
        results.push(RecognizeItem { text: texts[i].clone() });
        i = i + 1;
    }
    proof {
        assert(results@.map_values(|it: RecognizeItem| it.text@) =~= texts.deep_view());
    }
    LogPayload::Recognize { is_final, results }
}

/// What one line-event produces: the unconditional observability event,
/// the decode outcome, and the playback requests.
pub struct PipelineOutput {
    pub event: EventMsg,
    pub decoded: Option<LogMessage>,
    pub songs: Vec<String>,
}

/// Handle one event from the log tailer. Exactly one raw "instruction"
/// event is emitted whatever happens; playback requests arise only from
/// a line that decodes to a final recognition result — a decode failure,
/// like a "new file" event, yields none.
pub fn handle_line_event(event: &FileEvent) -> (r: PipelineOutput)
    ensures
        r.event.tag@ == "instruction"@,
        event matches FileEvent::NewFile ==> (r.event.payload matches Some(
            PayloadValue::Text { value },
        ) && value@ == "NewFile"@),
        event matches FileEvent::NewLine { line } ==> (r.event.payload matches Some(
            PayloadValue::Text { value },
        ) && value@ == line@),
        event matches FileEvent::NewFile ==> r.decoded is None,
        event matches FileEvent::NewLine { line } ==> (match r.decoded {
            Some(m) => spec_decode_log_line(line@) == Some(spec_message_model(m)),
            None => spec_decode_log_line(line@) is None,
        }),
        r.songs.deep_view() == match r.decoded {
            Some(m) => spec_message_songs(m),
            None => Seq::<Seq<char>>::empty(),
        },
{
    let raw: String = match event {
        FileEvent::NewFile => "NewFile".to_owned(),
        FileEvent::NewLine { line } => line.clone(),
    };
    let out_event = EventMsg {
        tag: "instruction".to_owned(),
        payload: Some(PayloadValue::Text { value: raw }),
    };
    let decoded = match event {
        FileEvent::NewFile => None,
        FileEvent::NewLine { line } => decode_log_line(line.as_str()),
    };
    let songs = match &decoded {
        Some(m) => song_requests(m),
        None => Vec::new(),
    };
    PipelineOutput { event: out_event, decoded, songs }
}

} // verus!
