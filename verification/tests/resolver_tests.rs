use xiaoai_client::resolver::{
    begin_resolution, on_resolve_result, on_search_result, on_shell_result, parse_play_url,
    parse_search_rids, play_command, ResolveAction, ResolveOutcome,
};

#[test]
fn resolution_begins_with_the_search_fetch() {
    match begin_resolution("\u{6674}\u{5929}") {
        ResolveAction::FetchSearch { url } => {
            assert_eq!(
                url,
                "https://musicapi.haitangw.net/music/?qq&name=\u{6674}\u{5929}"
            );
        }
        _ => panic!("expected the search fetch"),
    }
}

#[test]
fn empty_search_results_stop_without_resolve() {
    match on_search_result(&Some(Vec::new())) {
        ResolveAction::Stop { outcome } => assert_eq!(outcome, ResolveOutcome::NotFound),
        _ => panic!("an empty result list must stop the attempt"),
    }
}

#[test]
fn search_failure_stops_the_attempt() {
    match on_search_result(&None) {
        ResolveAction::Stop { outcome } => assert_eq!(outcome, ResolveOutcome::SearchFailed),
        _ => panic!("a failed search must stop the attempt"),
    }
}

#[test]
fn first_candidate_goes_to_resolve() {
    let rids = vec!["123".to_string(), "456".to_string()];
    match on_search_result(&Some(rids)) {
        ResolveAction::FetchResolve { url } => {
            assert_eq!(url, "https://musicapi.haitangw.net/music/qq_song_kw.php?id=123");
        }
        _ => panic!("expected the resolve fetch"),
    }
}

#[test]
fn missing_url_runs_no_command() {
    match on_resolve_result(&Some(None)) {
        ResolveAction::Stop { outcome } => assert_eq!(outcome, ResolveOutcome::NoUrl),
        _ => panic!("a missing URL must stop the attempt"),
    }
}

#[test]
fn resolve_failure_stops_the_attempt() {
    match on_resolve_result(&None) {
        ResolveAction::Stop { outcome } => assert_eq!(outcome, ResolveOutcome::ResolveFailed),
        _ => panic!("a failed resolve must stop the attempt"),
    }
}

#[test]
fn resolved_url_becomes_the_player_command() {
    match on_resolve_result(&Some(Some("http://cdn/song.m4a".to_string()))) {
        ResolveAction::RunPlayCommand { command } => {
            assert_eq!(
                command,
                "ubus -t 1 call mediaplayer player_play_url \
                 '{\"url\":\"http://cdn/song.m4a\",\"type\":1}'"
            );
        }
        _ => panic!("expected the player command"),
    }
}

#[test]
fn play_command_has_the_fixed_shape() {
    assert_eq!(
        play_command("u"),
        "ubus -t 1 call mediaplayer player_play_url '{\"url\":\"u\",\"type\":1}'"
    );
}

#[test]
fn shell_outcome_closes_the_attempt() {
    assert_eq!(on_shell_result(true), ResolveOutcome::Played);
    assert_eq!(on_shell_result(false), ResolveOutcome::ShellFailed);
}

#[test]
fn search_body_yields_ordered_candidates() {
    let body = "{\"code\":200,\"msg\":\"ok\",\"data\":[\
                {\"rid\":\"a1\",\"name\":\"x\"},{\"rid\":\"b2\",\"name\":\"y\"}]}";
    assert_eq!(
        parse_search_rids(body),
        Some(vec!["a1".to_string(), "b2".to_string()])
    );
}

#[test]
fn search_body_with_empty_data_is_empty() {
    assert_eq!(parse_search_rids("{\"data\":[]}"), Some(Vec::new()));
}

#[test]
fn search_body_failures_are_none() {
    assert_eq!(parse_search_rids("not json"), None);
    assert_eq!(parse_search_rids("{\"msg\":\"ok\"}"), None);
    assert_eq!(parse_search_rids("{\"data\":7}"), None);
    assert_eq!(parse_search_rids("{\"data\":[{\"name\":\"x\"}]}"), None);
    assert_eq!(parse_search_rids("{\"data\":[{\"rid\":12}]}"), None);
}

#[test]
fn play_body_yields_its_url() {
    let body = "{\"data\":{\"rid\":\"a1\",\"url\":\"http://cdn/s.m4a\"}}";
    assert_eq!(parse_play_url(body), Some(Some("http://cdn/s.m4a".to_string())));
}

#[test]
fn play_body_without_url_is_well_formed() {
    assert_eq!(parse_play_url("{\"data\":{\"rid\":\"a1\"}}"), Some(None));
    assert_eq!(parse_play_url("{\"data\":{\"url\":null}}"), Some(None));
}

#[test]
fn play_body_failures_are_none() {
    assert_eq!(parse_play_url("not json"), None);
    assert_eq!(parse_play_url("{\"rid\":\"a1\"}"), None);
    assert_eq!(parse_play_url("{\"data\":{\"url\":7}}"), None);
}
