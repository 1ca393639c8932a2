//! The media resolver: two-stage resolution from a free-text song name
//! to a hardware playback command.
//!
//! Stage one searches by name and takes the first candidate of the
//! ordered result list; stage two resolves that candidate's identifier
//! to a playable URL; a resolved URL becomes one fixed-shape player
//! command for the shell executor. Every stage's failure — a transport
//! error, an undecodable body, an empty result list, a missing URL —
//! ends only this resolution attempt. The application performs the HTTP
//! fetches and the shell call; the decisions between them stand here.

use vstd::prelude::*;
use vstd::string::StringExecFns;

use crate::json::{
    json_array_of, json_as_array, json_as_str, json_field_of, json_get, json_is_null,
    json_null_of, json_parse_of, json_str_of, parse_json, spec_string_fields, string_fields,
};

verus! {

/// How one resolution attempt ended.
#[derive(Clone, Copy, Debug, PartialEq, Eq, Structural)]
pub enum ResolveOutcome {
    /// The player command was issued and its output captured.
    Played,
    /// The player command could not be run.
    ShellFailed,
    /// The search returned an empty result list.
    NotFound,
    /// The resolve stage returned no URL.
    NoUrl,
    /// The search call failed or its body did not decode.
    SearchFailed,
    /// The resolve call failed or its body did not decode.
    ResolveFailed,
}

/// The next thing the application must do for this resolution attempt.
#[derive(Clone, Debug)]
pub enum ResolveAction {
    /// Fetch the search endpoint for the queried name.
    FetchSearch { url: String },
    /// Fetch the resolve endpoint for the chosen candidate.
    FetchResolve { url: String },
    /// Run the hardware player command.
    RunPlayCommand { command: String },
    /// The attempt is over; log the outcome and do nothing further.
    Stop { outcome: ResolveOutcome },
}

/// The search endpoint queried for `name`.
pub open spec fn spec_search_url(name: Seq<char>) -> Seq<char> {
    "https://musicapi.haitangw.net/music/?qq&name="@ + name
}

/// The resolve endpoint queried for the candidate identifier `rid`.
pub open spec fn spec_resolve_url(rid: Seq<char>) -> Seq<char> {
    "https://musicapi.haitangw.net/music/qq_song_kw.php?id="@ + rid
}

/// The fixed-shape player command issued for a resolved URL.
pub open spec fn spec_play_command(url: Seq<char>) -> Seq<char> {
    "ubus -t 1 call mediaplayer player_play_url '{\"url\":\""@ + url + "\",\"type\":1}'"@
}

/// Build the player command for a resolved URL.
pub fn play_command(url: &str) -> (r: String)
    ensures
        r@ == spec_play_command(url@),
{
    let head = String::from_str("ubus -t 1 call mediaplayer player_play_url '{\"url\":\"");
    head.concat(url).concat("\",\"type\":1}'")
}

/// Begin a resolution attempt for a recognized song name: the first
/// action is always the search fetch, with a fresh lookup — nothing is
/// memoized across attempts.
pub fn begin_resolution(name: &str) -> (a: ResolveAction)
    ensures
        a matches ResolveAction::FetchSearch { url } && url@ == spec_search_url(name@),
{
    let base = String::from_str("https://musicapi.haitangw.net/music/?qq&name=");
    ResolveAction::FetchSearch { url: base.concat(name) }
}

/// Decide on the outcome of the search stage, given the decoded
/// candidate identifiers (`None` when the call failed or its body did
/// not decode). An empty result list ends the attempt as `NotFound`: no
/// resolve call is made and no command is executed. Otherwise the first
/// candidate — and only it — goes to the resolve stage.
pub fn on_search_result(rids: &Option<Vec<String>>) -> (a: ResolveAction)
    ensures
        rids is None ==> a == (ResolveAction::Stop { outcome: ResolveOutcome::SearchFailed }),
        (rids matches Some(v) && v@.len() == 0) ==> a == (ResolveAction::Stop {
            outcome: ResolveOutcome::NotFound,
        }),
        rids matches Some(v) ==> (v@.len() > 0 ==> (a matches ResolveAction::FetchResolve { url }
            && url@ == spec_resolve_url(v@[0]@))),
{
    match rids {
        None => ResolveAction::Stop { outcome: ResolveOutcome::SearchFailed },
        Some(v) => {
            if v.len() == 0 {
                ResolveAction::Stop { outcome: ResolveOutcome::NotFound }
            } else {
                let base = String::from_str(
                    "https://musicapi.haitangw.net/music/qq_song_kw.php?id=",
                );
                ResolveAction::FetchResolve { url: base.concat(v[0].as_str()) }
            }
        },
    }
}

/// Decide on the outcome of the resolve stage, given the decoded URL
/// field (`None` when the call failed or its body did not decode;
/// `Some(None)` when the response carried no URL). Without a URL no
/// command is executed and the attempt ends silently.
pub fn on_resolve_result(url: &Option<Option<String>>) -> (a: ResolveAction)
    ensures
        url is None ==> a == (ResolveAction::Stop { outcome: ResolveOutcome::ResolveFailed }),
        (url matches Some(u) && u is None) ==> a == (ResolveAction::Stop {
            outcome: ResolveOutcome::NoUrl,
        }),
        url matches Some(u) ==> (u matches Some(s) ==> (a matches ResolveAction::RunPlayCommand {
            command,
        } && command@ == spec_play_command(s@))),
{
    match url {
        None => ResolveAction::Stop { outcome: ResolveOutcome::ResolveFailed },
        Some(None) => ResolveAction::Stop { outcome: ResolveOutcome::NoUrl },
        Some(Some(s)) => ResolveAction::RunPlayCommand { command: play_command(s.as_str()) },
    }
}

/// Close the attempt once the player command has been run (or failed to
/// run). A non-zero exit status of the command itself is data, not a
/// failure; `ran` is false only when the command could not be executed.
pub fn on_shell_result(ran: bool) -> (o: ResolveOutcome)
    ensures
        ran ==> o == ResolveOutcome::Played,
        !ran ==> o == ResolveOutcome::ShellFailed,
{
    if ran {
        ResolveOutcome::Played
    } else {
        ResolveOutcome::ShellFailed
    }
}

/// The candidate identifiers a search response body decodes to: the
/// string `rid` of every entry of its `data` array, in order — or
/// nothing, when the body is not of that shape.
pub open spec fn spec_search_rids(body: Seq<char>) -> Option<Seq<Seq<char>>> {
    match json_parse_of(body) {
        None => None,
        Some(v) => match json_field_of(v, "data"@) {
            None => None,
            Some(d) => match json_array_of(d) {
                None => None,
                Some(entries) => spec_string_fields(entries, "rid"@),
            },
        },
    }
}

/// Decode a search response body into the ordered candidate identifiers.
/// The body must be JSON whose `data` field is an array, every entry of
/// which carries a string `rid`; anything else is a decode failure and
/// yields `None`, ending the attempt.
pub fn parse_search_rids(body: &str) -> (r: Option<Vec<String>>)
    ensures
        match r {
            Some(rids) => spec_search_rids(body@) == Some(rids.deep_view()),
            None => spec_search_rids(body@) is None,
        },
{
    let parsed = match parse_json(body) {
        Some(v) => v,
        None => {
            return None;
        },
    };
    let entries = match json_get(&parsed, "data") {
        Some(d) => match json_as_array(d) {
            Some(a) => a,
            None => {
                return None;
            },
        },
        None => {
            return None;
        },
    };
    string_fields(entries, "rid")
}

/// The optional playable URL a resolve response body decodes to:
/// `Some(None)` when its `data` member carries no URL, the URL's text
/// when it does, and nothing when the body is not of that shape.
pub open spec fn spec_play_url(body: Seq<char>) -> Option<Option<Seq<char>>> {
    match json_parse_of(body) {
        None => None,
        Some(v) => match json_field_of(v, "data"@) {
            None => None,
            Some(d) => match json_field_of(d, "url"@) {
                None => Some(None),
                Some(u) => if json_null_of(u) {
                    Some(None)
                } else {
                    match json_str_of(u) {
                        None => None,
                        Some(s) => Some(Some(s)),
                    }
                },
            },
        },
    }
}

/// Decode a resolve response body into its optional playable URL. The
/// body must be JSON with a `data` object; a missing or null `url` field
/// inside it is `Some(None)` — a well-formed response without a URL —
/// while anything undecodable yields `None`.
pub fn parse_play_url(body: &str) -> (r: Option<Option<String>>)
    ensures
        match r {
            Some(Some(url)) => spec_play_url(body@) == Some(Some(url@)),
            Some(None) => spec_play_url(body@) == Some(None::<Seq<char>>),
            None => spec_play_url(body@) is None,
        },
{
    let parsed = match parse_json(body) {
        Some(v) => v,
        None => {
            return None;
        },
    };
    let data = match json_get(&parsed, "data") {
        Some(d) => d,
        None => {
            return None;
        },
    };
    match json_get(data, "url") {
        Some(u) => {
            if json_is_null(u) {
                Some(None)
            } else {
                match json_as_str(u) {
                    Some(s) => Some(Some(s)),
                    None => None,
                }
            }
        },
        None => Some(None),
    }
}

} // verus!
