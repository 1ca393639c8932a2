use xiaoai_client::dispatch::{
    route_request, standard_registry, HandlerRegistry, RequestRoute,
};
use xiaoai_client::protocol::Request;

#[test]
fn unknown_command_gets_failure_response() {
    let registry = HandlerRegistry::new();
    let request = Request { command: "fly_to_the_moon".to_string(), payload: None };
    match route_request(&registry, &request) {
        RequestRoute::Reply { response } => {
            assert!(!response.success);
            assert!(response.data.is_none());
            assert_eq!(response.error.as_deref(), Some("unknown command"));
        }
        RequestRoute::Invoke { .. } => panic!("an unregistered command must not be invoked"),
    }
}

#[test]
fn registered_command_reaches_its_handler() {
    let registry = standard_registry(1, 2, 3, 4, 5, 6);
    let request = Request { command: "run_shell".to_string(), payload: None };
    match route_request(&registry, &request) {
        RequestRoute::Invoke { handler } => assert_eq!(handler, 2),
        RequestRoute::Reply { .. } => panic!("a registered command must be invoked"),
    }
}

#[test]
fn standard_registry_holds_every_command() {
    let registry = standard_registry(10, 20, 30, 40, 50, 60);
    assert_eq!(registry.lookup("get_version"), Some(10));
    assert_eq!(registry.lookup("run_shell"), Some(20));
    assert_eq!(registry.lookup("start_play"), Some(30));
    assert_eq!(registry.lookup("stop_play"), Some(40));
    assert_eq!(registry.lookup("start_recording"), Some(50));
    assert_eq!(registry.lookup("stop_recording"), Some(60));
    assert_eq!(registry.lookup("reboot"), None);
}

#[test]
fn last_registration_wins() {
    let mut registry = HandlerRegistry::new();
    registry.add_command("run_shell".to_string(), 7);
    registry.add_command("run_shell".to_string(), 9);
    assert_eq!(registry.lookup("run_shell"), Some(9));
}
