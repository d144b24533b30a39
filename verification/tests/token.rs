use sv2_router::sv1::{blank, Json, Sv1Message};
use sv2_router::token_router::token::{
    choose_token, dummy_answer, hex, is_call, is_oversized_subscribe, parse_authorize_token,
    read_greeting, try_dummy_subscribe_response, Greeting,
};

fn text(s: &str) -> String {
    s.to_string()
}

fn request(id: u64, method: &str, params: &str) -> String {
    format!("{{\"id\":{},\"method\":\"{}\",\"params\":{}}}", id, method, params)
}

#[test]
fn white_space_is_blank() {
    assert!(blank(&text("")));
    assert!(blank(&text(" \t\r\n\u{b}\u{c}")));
    assert!(blank(&text("\u{85}\u{a0}\u{1680}\u{2000}\u{200a}\u{2028}\u{2029}\u{202f}\u{205f}\u{3000}")));
    assert!(!blank(&text(" a ")));
    assert!(!blank(&text("\u{200b}")));
    assert!(!blank(&text("\u{1c}")));
}

#[test]
fn the_password_is_the_token_unless_it_is_blank() {
    assert_eq!(choose_token(text("name"), text("password")), "password");
    assert_eq!(choose_token(text("name"), text(" password ")), " password ");
    assert_eq!(choose_token(text("name"), text("")), "name");
    assert_eq!(choose_token(text("name"), text(" \t")), "name");
    assert_eq!(choose_token(text(" "), text("\n")), " ");
}

#[test]
fn the_token_is_read_from_a_request_to_be_authorized() {
    let authorize = |params: &str| parse_authorize_token(&request(1, "mining.authorize", params));
    assert_eq!(authorize("[\"bob\",\"secret\"]"), Some(text("secret")));
    assert_eq!(authorize("[\"bob\",\"\"]"), Some(text("bob")));
    assert_eq!(authorize("[\"\",\" \"]"), Some(text("")));
    assert_eq!(authorize("[\"bob\"]"), None);
    assert_eq!(authorize("[\"bob\",\"a\",\"b\"]"), None);
    assert_eq!(authorize("[\"bob\",1]"), None);
    assert_eq!(authorize("[null,\"a\"]"), None);
    assert_eq!(authorize("{}"), None);
}

#[test]
fn other_messages_have_no_token() {
    assert_eq!(parse_authorize_token(&text("")), None);
    assert_eq!(parse_authorize_token(&text("not json")), None);
    assert_eq!(
        parse_authorize_token(&request(1, "mining.submit", "[\"bob\",\"secret\"]")),
        None
    );
    let notification = text("{\"method\":\"mining.authorize\",\"params\":[\"bob\",\"secret\"]}");
    assert_eq!(parse_authorize_token(&notification), None);
    let response = text("{\"id\":1,\"error\":null,\"result\":true}");
    assert_eq!(parse_authorize_token(&response), None);
}

const ANSWER: &str = "{\"id\":ID,\"error\":null,\"result\":[[[\"mining.set_difficulty\",\"ae6812eb4cd7735a302a8a9dd95cf71f\"],[\"mining.notify\",\"ae6812eb4cd7735a302a8a9dd95cf71f\"]],\"\",8]}\n";

fn expected_answer(id: &str) -> String {
    ANSWER.replace("ID", id)
}

#[test]
fn a_request_to_subscribe_is_answered() {
    let message = request(4, "mining.subscribe", "[\"cgminer/4.11\"]");
    let answer = try_dummy_subscribe_response(&message, 8).unwrap();
    assert_eq!(answer.response, expected_answer("4"));
    assert!(answer.extranonce1.is_empty());
    assert_eq!(answer.user_agent, "cgminer/4.11");
}

#[test]
fn the_answer_depends_on_the_id_and_the_size() {
    let answer = dummy_answer(18446744073709551615, text("agent"), 8);
    assert_eq!(answer.response, expected_answer("18446744073709551615"));
    let answer = dummy_answer(1, text("agent"), 4);
    assert_eq!(answer.response, expected_answer("1").replace("\"\",8", "\"\",4"));
    assert_eq!(answer.user_agent, "agent");
}

#[test]
fn an_answer_is_a_single_line() {
    let message = request(4, "mining.subscribe", "[\"a\\nb\"]");
    let answer = try_dummy_subscribe_response(&message, 8).unwrap();
    assert_eq!(answer.user_agent, "a\nb");
    assert_eq!(answer.response.matches('\n').count(), 1);
    assert!(answer.response.ends_with('\n'));
}

#[test]
fn all_forms_of_a_request_to_subscribe_are_known() {
    let agent = |params: &str| {
        try_dummy_subscribe_response(&request(1, "mining.subscribe", params), 8)
            .map(|answer| answer.user_agent)
    };
    assert_eq!(agent("[]"), Some(text("")));
    assert_eq!(agent("[\"a\"]"), Some(text("a")));
    assert_eq!(agent("[\"a\",null]"), Some(text("a")));
    assert_eq!(agent("[\"a\",\"00ffAB\"]"), Some(text("a")));
    assert_eq!(agent("[\"a\",\"\"]"), Some(text("a")));
    assert_eq!(agent(&format!("[\"a\",\"{}\"]", "0".repeat(64))), Some(text("a")));
    assert_eq!(agent("[\"a\",null,\"host\",null]"), Some(text("a")));
    assert_eq!(agent("[\"a\",\"0\"]"), None);
    assert_eq!(agent("[\"a\",\"zz\"]"), None);
    assert_eq!(agent("[\"a\",\"\u{e9}\"]"), None);
    assert_eq!(agent("[\"a\",1]"), None);
    assert_eq!(agent("[null]"), None);
    assert_eq!(agent("[\"a\",null,\"host\"]"), None);
    assert_eq!(agent("[\"a\",null,\"host\",1]"), None);
    assert_eq!(agent("{}"), None);
    assert!(try_dummy_subscribe_response(&request(1, "mining.submit", "[\"a\"]"), 8).is_none());
    assert!(try_dummy_subscribe_response(&text("nothing"), 8).is_none());
}

#[test]
fn hexadecimal_digits_are_recognized() {
    assert!(hex(&text("")));
    assert!(hex(&text("09afAF")));
    assert!(!hex(&text("0")));
    assert!(!hex(&text("0g")));
    assert!(!hex(&text("G0")));
    assert!(!hex(&text("/0")));
    assert!(!hex(&text(":0")));
    assert!(!hex(&text("@0")));
    assert!(!hex(&text("`0")));
}

fn subscribe(params: Option<Vec<Json>>) -> Sv1Message {
    Sv1Message::Request { id: 1, method: text("mining.subscribe"), params }
}

#[test]
fn an_extranonce_that_is_too_long_is_noticed() {
    let agent = || Json::Text(text("a"));
    let digits = |n: usize| Json::Text("0".repeat(n));
    assert!(is_oversized_subscribe(&subscribe(Some(vec![agent(), digits(66)]))));
    assert!(!is_oversized_subscribe(&subscribe(Some(vec![agent(), digits(64)]))));
    assert!(!is_oversized_subscribe(&subscribe(Some(vec![agent(), digits(65)]))));
    assert!(!is_oversized_subscribe(&subscribe(Some(vec![Json::Null, digits(66)]))));
    assert!(!is_oversized_subscribe(&subscribe(Some(vec![agent(), Json::Other]))));
    assert!(!is_oversized_subscribe(&subscribe(Some(vec![agent()]))));
    assert!(!is_oversized_subscribe(&subscribe(None)));
    assert!(!is_oversized_subscribe(&Sv1Message::Other));
    let other = Sv1Message::Request {
        id: 1,
        method: text("mining.authorize"),
        params: Some(vec![agent(), digits(66)]),
    };
    assert!(!is_oversized_subscribe(&other));
}

#[test]
fn a_request_is_one_for_its_method() {
    assert!(is_call(&subscribe(None), "mining.subscribe"));
    assert!(!is_call(&subscribe(None), "mining.authorize"));
    assert!(!is_call(&Sv1Message::Other, "mining.subscribe"));
}

#[test]
fn greetings_are_told_apart() {
    let read = |message: String| read_greeting(&message, 8);
    match read(request(4, "mining.subscribe", "[\"a\"]")) {
        Greeting::Subscribe(answer) => assert_eq!(answer.response, expected_answer("4")),
        _ => panic!(),
    }
    match read(request(5, "mining.authorize", "[\"bob\",\"\"]")) {
        Greeting::Authorize(token) => assert_eq!(token, "bob"),
        _ => panic!(),
    }
    let oversized = format!("[\"a\",\"{}\"]", "0".repeat(66));
    assert!(matches!(read(request(6, "mining.subscribe", &oversized)), Greeting::Oversized));
    assert!(matches!(read(request(6, "mining.subscribe", "[1]")), Greeting::Other));
    assert!(matches!(read(request(7, "mining.configure", "[]")), Greeting::Other));
    assert!(matches!(read(text("{")), Greeting::Other));
}
