use sv2_router::token_router::connection::{
    Action, Connection, Stage, TokenError, TOKEN_TIMEOUT,
};
use sv2_router::token_router::token::{Greeting, SubscribeAnswer};

fn text(s: &str) -> String {
    s.to_string()
}

fn answer() -> SubscribeAnswer {
    SubscribeAnswer { response: text("response"), extranonce1: vec![], user_agent: text("agent") }
}

/// A connection whose downstream was found an upstream, after it sent the given messages and then
/// asked to be authorized.
fn found(messages: &[&str]) -> Connection {
    let mut connection = Connection::new(0);
    for message in messages {
        assert!(matches!(connection.on_greeting(text(message), Greeting::Other), Action::Receive));
    }
    match connection.on_greeting(text("authorize"), Greeting::Authorize(text("token"))) {
        Action::Find(token) => assert_eq!(token, "token"),
        _ => panic!(),
    }
    assert_eq!(connection.current_stage(), Stage::Finding);
    assert!(matches!(connection.on_instance(true), Action::Attach));
    assert_eq!(connection.current_stage(), Stage::Attaching);
    connection
}

#[test]
fn the_token_has_to_be_known_in_ten_seconds() {
    let connection = Connection::new(5);
    assert_eq!(TOKEN_TIMEOUT, 10_000_000_000);
    assert_eq!(connection.time_left(5), Some(10_000_000_000));
    assert_eq!(connection.time_left(10_000_000_004), Some(1));
    assert_eq!(connection.time_left(10_000_000_005), None);
    assert_eq!(connection.time_left(u128::MAX), None);
}

#[test]
fn a_downstream_without_a_token_is_banned() {
    let mut connection = Connection::new(0);
    let action = connection.on_greeting(text("authorize"), Greeting::Authorize(text(" ")));
    assert!(matches!(action, Action::Ban));
    assert_eq!(connection.current_stage(), Stage::Closed);
    let mut connection = Connection::new(0);
    assert!(matches!(connection.on_token_error(TokenError::Missing), Action::Ban));
}

#[test]
fn a_silent_downstream_is_dropped() {
    for error in [TokenError::Timeout, TokenError::Disconnected] {
        let mut connection = Connection::new(0);
        assert!(matches!(connection.on_token_error(error), Action::Close));
        assert_eq!(connection.current_stage(), Stage::Closed);
    }
}

#[test]
fn a_request_to_subscribe_is_answered_and_not_kept() {
    let mut connection = Connection::new(0);
    match connection.on_greeting(text("subscribe"), Greeting::Subscribe(answer())) {
        Action::Answer(answer) => assert_eq!(answer.response, "response"),
        _ => panic!(),
    }
    assert_eq!(connection.current_stage(), Stage::Waiting);
    connection.on_greeting(text("authorize"), Greeting::Authorize(text("token")));
    connection.on_instance(true);
    match connection.on_attached(true) {
        Action::Forward(message) => assert_eq!(message, "authorize"),
        _ => panic!(),
    }
    assert!(matches!(connection.on_forwarded(true), Action::Receive));
}

#[test]
fn an_unanswerable_request_to_subscribe_ends_the_connection() {
    let mut connection = Connection::new(0);
    let action = connection.on_greeting(text("subscribe"), Greeting::Oversized);
    assert!(matches!(action, Action::Abort));
    assert_eq!(connection.current_stage(), Stage::Closed);
}

#[test]
fn a_downstream_without_an_upstream_is_banned() {
    let mut connection = Connection::new(0);
    connection.on_greeting(text("authorize"), Greeting::Authorize(text("token")));
    assert!(matches!(connection.on_instance(false), Action::Ban));
    assert_eq!(connection.current_stage(), Stage::Closed);
}

#[test]
fn a_downstream_that_cannot_be_attached_is_dropped() {
    let mut connection = found(&[]);
    assert!(matches!(connection.on_attached(false), Action::Close));
    assert_eq!(connection.current_stage(), Stage::Closed);
}

#[test]
fn messages_are_passed_on_in_order() {
    let mut connection = found(&["a", "b"]);
    let mut forwarded = Vec::new();
    let mut live = vec![text("d"), text("c")];
    let mut action = connection.on_attached(true);
    loop {
        action = match action {
            Action::Forward(message) => {
                forwarded.push(message);
                connection.on_forwarded(true)
            }
            Action::Receive => connection.on_received(live.pop()),
            Action::Close => break,
            _ => panic!(),
        };
    }
    assert_eq!(forwarded, vec!["a", "b", "authorize", "c", "d"]);
    assert_eq!(connection.current_stage(), Stage::Closed);
}

#[test]
fn a_message_that_cannot_be_passed_on_is_the_last() {
    let mut connection = found(&["a"]);
    assert!(matches!(connection.on_attached(true), Action::Forward(_)));
    assert!(matches!(connection.on_forwarded(false), Action::Close));
    assert_eq!(connection.current_stage(), Stage::Closed);
}

#[test]
fn texts_are_read_while_the_token_is_not_known() {
    let mut connection = Connection::new(0);
    let subscribe = text("{\"id\":1,\"method\":\"mining.subscribe\",\"params\":[\"miner\"]}");
    match connection.on_message(subscribe, 8) {
        Action::Answer(answer) => assert_eq!(answer.user_agent, "miner"),
        _ => panic!(),
    }
    let configure = text("{\"id\":2,\"method\":\"mining.configure\",\"params\":[]}");
    assert!(matches!(connection.on_message(configure.clone(), 8), Action::Receive));
    let authorize = text("{\"id\":3,\"method\":\"mining.authorize\",\"params\":[\"bob\",\"x\"]}");
    match connection.on_message(authorize.clone(), 8) {
        Action::Find(token) => assert_eq!(token, "x"),
        _ => panic!(),
    }
    connection.on_instance(true);
    match connection.on_attached(true) {
        Action::Forward(message) => assert_eq!(message, configure),
        _ => panic!(),
    }
    match connection.on_forwarded(true) {
        Action::Forward(message) => assert_eq!(message, authorize),
        _ => panic!(),
    }
}
