//! What the messages of an SV1 downstream say before it is attached to an upstream: which token it
//! mines for, and whether it subscribes.
use vstd::prelude::*;

use crate::sv1::{
    blank, parse_authorize, parse_message, parse_subscribe, respond_to_subscribe, Json, Sv1Message,
    MAX_EXTRANONCE_DIGITS,
};

verus! {

/// Whether a message is a request for a method.
pub open spec fn calls(message: crate::sv1::Sv1MessageView, name: Seq<char>) -> bool {
    message matches crate::sv1::Sv1MessageView::Request { method, .. } && method == name
}

/// Whether a message is a request for a method.
pub fn is_call(message: &Sv1Message, name: &str) -> (b: bool)
    ensures
        b == calls(message@, name@),
{
    match message {
        Sv1Message::Request { method, .. } => *method == name.to_owned(),
        Sv1Message::Other => false,
    }
}

/// The token that a name and a password stand for: the password, unless it is blank.
pub open spec fn token_of(name: Seq<char>, password: Seq<char>) -> Seq<char> {
    if crate::sv1::is_blank(password) {
        name
    } else {
        password
    }
}

/// The token that a name and a password stand for.
pub fn choose_token(name: String, password: String) -> (token: String)
    ensures
        token@ == token_of(name@, password@),
        crate::sv1::is_blank(password@) ==> token@ == name@,
        !crate::sv1::is_blank(password@) ==> token@ == password@,
{
    if blank(&password) {
        name
    } else {
        password
    }
}

/// There is a token wherever there is something in the name or the password, and it is taken from
/// the name only where there is nothing in the password.
pub proof fn law_token_is_blank_only_without_any(name: Seq<char>, password: Seq<char>)
    ensures
        crate::sv1::is_blank(token_of(name, password)) <==> crate::sv1::is_blank(name)
            && crate::sv1::is_blank(password),
        !crate::sv1::is_blank(password) ==> token_of(name, password) == password,
{
}

/// The token is the name, character for character, where there is nothing in the password, and the
/// password, character for character, wherever there is something in it.
pub proof fn law_token_is_the_password_or_the_name(name: Seq<char>, password: Seq<char>)
    ensures
        (forall|i: int|
            0 <= i < password.len() ==> crate::sv1::is_white_space(#[trigger] password[i]))
            ==> token_of(name, password) == name,
        (exists|i: int|
            0 <= i < password.len() && !crate::sv1::is_white_space(#[trigger] password[i]))
            ==> token_of(name, password) == password,
{
}

/// The token in a message, if it is a request to be authorized.
pub open spec fn token_in(message: crate::sv1::Sv1MessageView) -> Option<Seq<char>> {
    if calls(message, "mining.authorize"@) {
        match crate::sv1::authorization(message) {
            Some((name, password)) => Some(token_of(name, password)),
            None => None,
        }
    } else {
        None
    }
}

/// A message tells a token exactly if it is a request for `mining.authorize` with a list of two
/// texts. They are the name and the password that the token is taken from.
pub proof fn law_who_tells_a_token(message: crate::sv1::Sv1MessageView)
    ensures
        token_in(message) is Some <==> (message matches crate::sv1::Sv1MessageView::Request {
            method,
            params: Some(params),
            ..
        } && method == "mining.authorize"@ && params.len() == 2 && params[0] is Text
            && params[1] is Text),
{
}

/// The token in a request to be authorized is its second text, or its first one where the second is
/// blank.
pub proof fn law_token_of_a_request(id: u64, name: Seq<char>, password: Seq<char>)
    ensures
        token_in(
            crate::sv1::Sv1MessageView::Request {
                id,
                method: "mining.authorize"@,
                params: Some(
                    seq![
                        crate::sv1::JsonView::Text(name),
                        crate::sv1::JsonView::Text(password),
                    ],
                ),
            },
        ) == Some(
            if crate::sv1::is_blank(password) {
                name
            } else {
                password
            },
        ),
{
}

/// The token in the text of a message, if it is a request to be authorized.
pub fn parse_authorize_token(msg: &String) -> (token: Option<String>)
    ensures
        match crate::sv1::sv1_message(msg@) {
            Some(message) => match token {
                Some(token) => token_in(message) == Some(token@),
                None => token_in(message) is None,
            },
            None => token is None,
        },
{
    match parse_message(msg) {
        Some(message) => {
            if !is_call(&message, "mining.authorize") {
                return None;
            }
            match parse_authorize(msg) {
                Some((name, password)) => Some(choose_token(name, password)),
                None => None,
            }
        },
        None => None,
    }
}

/// The answer to a request to subscribe that is given before there is an upstream.
pub struct SubscribeAnswer {
    /// The text of the answer.
    pub response: String,
    /// The extranonce in the answer.
    pub extranonce1: Vec<u8>,
    /// What the downstream said about itself.
    pub user_agent: String,
}

/// The id of the subscriptions in the answer.
pub open spec fn subscription_id() -> Seq<char> {
    "ae6812eb4cd7735a302a8a9dd95cf71f"@
}

/// The subscriptions in the answer.
pub open spec fn dummy_subscriptions() -> Seq<(Seq<char>, Seq<char>)> {
    seq![
        ("mining.set_difficulty"@, subscription_id()),
        ("mining.notify"@, subscription_id()),
    ]
}

/// The text of the answer to a request to subscribe: a line with no extranonce, and with the size
/// of the part that is left to the downstream.
pub open spec fn dummy_response(id: u64, extranonce2_size: usize) -> Seq<char> {
    crate::sv1::subscribe_response(
        id,
        dummy_subscriptions(),
        Seq::empty(),
        extranonce2_size,
    ) + "\n"@
}

/// Whether an answer is the one to a request with the given id and user agent, in a single line.
pub open spec fn is_answer(
    answer: SubscribeAnswer,
    id: u64,
    user_agent: Seq<char>,
    extranonce2_size: usize,
) -> bool {
    &&& answer.response@ == dummy_response(id, extranonce2_size)
    &&& crate::sv1::is_line(answer.response@)
    &&& answer.extranonce1@ == Seq::<u8>::empty()
    &&& answer.user_agent@ == user_agent
}

/// The answer to a request to subscribe is the response of the protocol to the id of that request,
/// with two subscriptions, no extranonce and the given size, and a line feed behind it. Along with
/// it goes what the downstream said about itself.
pub proof fn law_what_is_answered(
    answer: SubscribeAnswer,
    id: u64,
    user_agent: Seq<char>,
    extranonce2_size: usize,
)
    requires
        is_answer(answer, id, user_agent, extranonce2_size),
    ensures
        answer.response@.len() > 0,
        answer.response@.last() == '\n',
        answer.response@.drop_last() == crate::sv1::subscribe_response(
            id,
            seq![
                ("mining.set_difficulty"@, "ae6812eb4cd7735a302a8a9dd95cf71f"@),
                ("mining.notify"@, "ae6812eb4cd7735a302a8a9dd95cf71f"@),
            ],
            Seq::empty(),
            extranonce2_size,
        ),
        forall|i: int|
            0 <= i < answer.response@.len() - 1 ==> #[trigger] answer.response@[i] != '\n',
        answer.extranonce1@.len() == 0,
        answer.user_agent@ == user_agent,
{
    reveal_strlit("\n");
    let line = answer.response@.drop_last();
    assert(line =~= crate::sv1::subscribe_response(
        id,
        dummy_subscriptions(),
        Seq::empty(),
        extranonce2_size,
    ));
    assert forall|i: int| 0 <= i < answer.response@.len() - 1 implies #[trigger] answer.response@[i]
        != '\n' by {
        assert(line[i] == answer.response@[i]);
        assert(line.contains(line[i]));
    }
}

/// Makes the answer to a request to subscribe.
pub fn dummy_answer(id: u64, user_agent: String, extranonce2_size: usize) -> (answer:
    SubscribeAnswer)
    ensures
        is_answer(answer, id, user_agent@, extranonce2_size),
{
    let subscription_id = "ae6812eb4cd7735a302a8a9dd95cf71f".to_string();
    let subscriptions: Vec<(String, String)> = vec![
        ("mining.set_difficulty".to_string(), subscription_id.clone()),
        ("mining.notify".to_string(), subscription_id),
    ];
    let extranonce1: Vec<u8> = Vec::new();
    proof {
        assert(crate::sv1::subscriptions_view(subscriptions@) =~= dummy_subscriptions());
        assert(extranonce1@ == Seq::<u8>::empty());
    }
    let text = respond_to_subscribe(id, subscriptions, extranonce1, extranonce2_size);
    let text = text.unwrap();
    let ghost line = text@;
    let response = text.concat("\n");
    proof {
        reveal_strlit("\n");
        assert(response@.drop_last() =~= line);
    }
    SubscribeAnswer { response, extranonce1: Vec::new(), user_agent }
}

/// Whether a message is a request to subscribe that asks to resume an extranonce that is too long
/// to be one.
pub open spec fn oversized_subscribe(message: crate::sv1::Sv1MessageView) -> bool {
    calls(message, "mining.subscribe"@) && crate::sv1::resumes_oversized(message)
}

/// The id and the user agent in a message, if it is a request to subscribe.
pub open spec fn subscribe_in(message: crate::sv1::Sv1MessageView) -> Option<(u64, Seq<char>)> {
    if calls(message, "mining.subscribe"@) {
        crate::sv1::subscription(message)
    } else {
        None
    }
}

/// A message subscribes exactly if it is a request for `mining.subscribe` whose parameters hold a
/// user agent in one of the known forms. The answer is for its own id and user agent.
pub proof fn law_who_subscribes(message: crate::sv1::Sv1MessageView)
    ensures
        match message {
            crate::sv1::Sv1MessageView::Request { id, method, params: Some(params) } => {
                &&& method != "mining.subscribe"@ ==> subscribe_in(message) is None
                &&& method == "mining.subscribe"@ ==> (subscribe_in(message) matches Some((
                    request_id,
                    user_agent,
                )) ==> {
                    &&& request_id == id
                    &&& params.len() > 0 ==> params[0] == crate::sv1::JsonView::Text(user_agent)
                    &&& params.len() == 0 ==> user_agent.len() == 0
                    &&& params.len() == 2 ==> params[1] is Null || params[1] is Text
                    &&& params.len() == 4 ==> params[1] is Null && params[2] is Text
                        && params[3] is Null
                    &&& params.len() != 3 && params.len() <= 4
                })
                &&& method == "mining.subscribe"@ && params.len() == 0 ==> subscribe_in(
                    message,
                ) is Some
                &&& method == "mining.subscribe"@ && params.len() == 1 && params[0] is Text
                    ==> subscribe_in(message) is Some
                &&& method == "mining.subscribe"@ && params.len() == 2 && params[0] is Text
                    && params[1] is Null ==> subscribe_in(message) is Some
                &&& method == "mining.subscribe"@ && params.len() == 2 && params[0] is Text
                    && params[1] is Text ==> (subscribe_in(message) is Some <==> crate::sv1::is_hex(
                    params[1]->Text_0,
                ))
                &&& method == "mining.subscribe"@ && params.len() == 4 && params[0] is Text
                    && params[1] is Null && params[2] is Text && params[3] is Null ==> subscribe_in(
                    message,
                ) is Some
            },
            _ => subscribe_in(message) is None,
        },
{
}

/// A request to subscribe cannot be answered exactly if it comes with a user agent and with more than
/// 64 hexadecimal digits.
pub proof fn law_who_cannot_be_answered(message: crate::sv1::Sv1MessageView)
    ensures
        oversized_subscribe(message) <==> (message matches crate::sv1::Sv1MessageView::Request {
            method,
            params: Some(params),
            ..
        } && method == "mining.subscribe"@ && params.len() == 2 && params[0] is Text
            && params[1] is Text && crate::sv1::is_hex(params[1]->Text_0)
            && params[1]->Text_0.len() > 64),
{
}

/// The answer to the text of a message, if it is a request to subscribe.
pub fn try_dummy_subscribe_response(msg: &String, extranonce2_size: usize) -> (answer: Option<
    SubscribeAnswer,
>)
    requires
        crate::sv1::sv1_message(msg@) matches Some(message) ==> !oversized_subscribe(message),
    ensures
        match crate::sv1::sv1_message(msg@) {
            Some(message) => match subscribe_in(message) {
                Some((id, user_agent)) => answer matches Some(a) && is_answer(
                    a,
                    id,
                    user_agent,
                    extranonce2_size,
                ),
                None => answer is None,
            },
            None => answer is None,
        },
{
    match parse_message(msg) {
        Some(message) => {
            if !is_call(&message, "mining.subscribe") {
                return None;
            }
            match parse_subscribe(msg) {
                Some((id, user_agent)) => Some(dummy_answer(id, user_agent, extranonce2_size)),
                None => None,
            }
        },
        None => None,
    }
}

/// Whether a text is that of bytes in hexadecimal digits.
pub fn hex(text: &String) -> (b: bool)
    ensures
        b == crate::sv1::is_hex(text@),
{
    let len: usize = text.as_str().unicode_len();
    if len % 2 != 0 {
        return false;
    }
    let mut i: usize = 0;
    while i < len
        invariant
            i <= len,
            len == text@.len(),
            forall|j: int| 0 <= j < i ==> crate::sv1::is_hex_digit(#[trigger] text@[j]),
        decreases len - i,
    {
        let c: char = text.as_str().get_char(i);
        let digit = ('0' <= c && c <= '9') || ('a' <= c && c <= 'f') || ('A' <= c && c <= 'F');
        if !digit {
            assert(!crate::sv1::is_hex_digit(text@[i as int]));
            return false;
        }
        i = i + 1;
    }
    true
}

/// Whether a message is a request to subscribe that asks to resume an extranonce that is too long
/// to be one.
pub fn is_oversized_subscribe(message: &Sv1Message) -> (b: bool)
    ensures
        b == oversized_subscribe(message@),
{
    if !is_call(message, "mining.subscribe") {
        return false;
    }
    match message {
        Sv1Message::Request { params: Some(params), .. } => {
            let ghost view = params@.map_values(|p: Json| p@);
            if params.len() != 2 {
                return false;
            }
            proof {
                assert(view[0] == params@[0]@);
                assert(view[1] == params@[1]@);
            }
            match (&params[0], &params[1]) {
                (Json::Text(_), Json::Text(digits)) => {
                    hex(digits) && digits.as_str().unicode_len() > MAX_EXTRANONCE_DIGITS
                },
                _ => false,
            }
        },
        _ => false,
    }
}

/// What a message is to a downstream that is not attached yet.
pub enum Greeting {
    /// A request to subscribe, with its answer.
    Subscribe(SubscribeAnswer),
    /// A request to be authorized, with its token.
    Authorize(String),
    /// Anything else.
    Other,
    /// A request to subscribe that asks to resume an extranonce that is too long to be one.
    Oversized,
}

/// Whether a message is the given thing.
pub open spec fn is_greeting(
    greeting: Greeting,
    message: Option<crate::sv1::Sv1MessageView>,
    extranonce2_size: usize,
) -> bool {
    match message {
        None => greeting is Other,
        Some(message) => if oversized_subscribe(message) {
            greeting is Oversized
        } else {
            match (subscribe_in(message), token_in(message)) {
                (Some((id, user_agent)), _) => greeting matches Greeting::Subscribe(answer)
                    && is_answer(answer, id, user_agent, extranonce2_size),
                (None, Some(token)) => greeting matches Greeting::Authorize(t) && t@ == token,
                (None, None) => greeting is Other,
            }
        },
    }
}

/// What a message is, is told by what it holds: an answer is given exactly to a request to subscribe
/// that can be answered, and it is for that request; a token is taken exactly from a request to be
/// authorized, and it is its own; and everything else is left to the upstream.
pub proof fn law_greetings_are_told_apart(
    greeting: Greeting,
    message: Option<crate::sv1::Sv1MessageView>,
    extranonce2_size: usize,
)
    requires
        is_greeting(greeting, message, extranonce2_size),
    ensures
        greeting is Oversized <==> (message matches Some(m) && oversized_subscribe(m)),
        greeting is Subscribe <==> (message matches Some(m) && !oversized_subscribe(m)
            && subscribe_in(m) is Some),
        greeting is Authorize <==> (message matches Some(m) && token_in(m) is Some),
        greeting matches Greeting::Subscribe(answer) ==> (message matches Some(m) && (subscribe_in(
            m,
        ) matches Some((id, user_agent)) && is_answer(answer, id, user_agent, extranonce2_size))),
        greeting matches Greeting::Authorize(token) ==> (message matches Some(m) && token_in(m)
            == Some(token@)),
{
    reveal_strlit("mining.subscribe");
    reveal_strlit("mining.authorize");
    assert("mining.subscribe"@.len() == 16);
    assert("mining.subscribe"@[7] == 's');
    assert("mining.authorize"@[7] == 'a');
}

/// Reads the text of a message: a request to subscribe is looked for first, and a request to be
/// authorized next.
pub fn read_greeting(msg: &String, extranonce2_size: usize) -> (greeting: Greeting)
    ensures
        is_greeting(greeting, crate::sv1::sv1_message(msg@), extranonce2_size),
{
    let message = match parse_message(msg) {
        Some(message) => message,
        None => {
            return Greeting::Other;
        },
    };
    if is_oversized_subscribe(&message) {
        return Greeting::Oversized;
    }
    match try_dummy_subscribe_response(msg, extranonce2_size) {
        Some(answer) => Greeting::Subscribe(answer),
        None => match parse_authorize_token(msg) {
            Some(token) => Greeting::Authorize(token),
            None => Greeting::Other,
        },
    }
}

/// Whatever the name and the password, the token is the password, character for character, if there
/// is a character in it that is no white space, and the name, character for character, otherwise.
pub proof fn law_chosen_token(name: String, password: String, token: String)
    requires
        call_ensures(choose_token, (name, password), token),
    ensures
        (exists|i: int|
            0 <= i < password@.len() && !crate::sv1::is_white_space(#[trigger] password@[i]))
            ==> token@ == password@,
        (forall|i: int|
            0 <= i < password@.len() ==> crate::sv1::is_white_space(#[trigger] password@[i]))
            ==> token@ == name@,
{
}

/// The text of a message tells a token exactly if it is a request for `mining.authorize` with a list
/// of two texts. It is the second of them, or the first where the second is blank.
pub proof fn law_told_token(msg: String, token: Option<String>)
    requires
        call_ensures(parse_authorize_token, (&msg,), token),
    ensures
        token is Some <==> (crate::sv1::sv1_message(
            msg@,
        ) matches Some(crate::sv1::Sv1MessageView::Request { method, params: Some(params), .. })
            && method == "mining.authorize"@ && params.len() == 2 && params[0] is Text
            && params[1] is Text),
        token matches Some(token) ==> (crate::sv1::sv1_message(
            msg@,
        ) matches Some(crate::sv1::Sv1MessageView::Request { params: Some(params), .. })
            && token@ == if crate::sv1::is_blank(params[1]->Text_0) {
            params[0]->Text_0
        } else {
            params[1]->Text_0
        }),
{
}

/// The answer to a request to subscribe is for the id and the user agent of that request, whatever
/// they are: one line, with the response of the protocol.
pub proof fn law_given_answer(
    id: u64,
    user_agent: String,
    extranonce2_size: usize,
    answer: SubscribeAnswer,
)
    requires
        call_ensures(dummy_answer, (id, user_agent, extranonce2_size), answer),
    ensures
        answer.response@.len() > 0,
        answer.response@.last() == '\n',
        answer.response@.drop_last() == crate::sv1::subscribe_response(
            id,
            seq![
                ("mining.set_difficulty"@, "ae6812eb4cd7735a302a8a9dd95cf71f"@),
                ("mining.notify"@, "ae6812eb4cd7735a302a8a9dd95cf71f"@),
            ],
            Seq::empty(),
            extranonce2_size,
        ),
        answer.extranonce1@.len() == 0,
        answer.user_agent@ == user_agent@,
{
    law_what_is_answered(answer, id, user_agent@, extranonce2_size);
}

/// The text of a message is answered exactly if it is a request to subscribe that has no parameters, or
/// a user agent alone, with an extranonce to be resumed or none, or in the longer form. The answer is
/// for its own id and user agent, whatever they are.
pub proof fn law_who_is_answered(
    msg: String,
    extranonce2_size: usize,
    answer: Option<SubscribeAnswer>,
    id: u64,
    method: Seq<char>,
    params: Seq<crate::sv1::JsonView>,
)
    requires
        call_ensures(try_dummy_subscribe_response, (&msg, extranonce2_size), answer),
        crate::sv1::sv1_message(msg@) == Some(
            crate::sv1::Sv1MessageView::Request { id, method, params: Some(params) },
        ),
    ensures
        answer is Some <==> method == "mining.subscribe"@ && (params.len() == 0 || (params[0] is Text
            && (params.len() == 1 || (params.len() == 2 && params[1] is Null) || (params.len() == 2
            && params[1] is Text && crate::sv1::is_hex(params[1]->Text_0)) || (params.len() == 4
            && params[1] is Null && params[2] is Text && params[3] is Null)))),
        answer matches Some(a) ==> {
            &&& a.user_agent@ == (if params.len() == 0 {
                Seq::empty()
            } else {
                params[0]->Text_0
            })
            &&& a.response@.drop_last() == crate::sv1::subscribe_response(
                id,
                seq![
                    ("mining.set_difficulty"@, "ae6812eb4cd7735a302a8a9dd95cf71f"@),
                    ("mining.notify"@, "ae6812eb4cd7735a302a8a9dd95cf71f"@),
                ],
                Seq::empty(),
                extranonce2_size,
            )
        },
{
    law_who_subscribes(
        crate::sv1::Sv1MessageView::Request { id, method, params: Some(params) },
    );
    if let Some(a) = answer {
        let user_agent = if params.len() == 0 {
            Seq::empty()
        } else {
            params[0]->Text_0
        };
        law_what_is_answered(a, id, user_agent, extranonce2_size);
    }
}

/// A text that is no request with a list of parameters is not answered.
pub proof fn law_who_is_not_answered(
    msg: String,
    extranonce2_size: usize,
    answer: Option<SubscribeAnswer>,
)
    requires
        call_ensures(try_dummy_subscribe_response, (&msg, extranonce2_size), answer),
        !(crate::sv1::sv1_message(msg@) matches Some(crate::sv1::Sv1MessageView::Request {
            params: Some(params),
            ..
        })),
    ensures
        answer is None,
{
}

/// A text is one of bytes in hexadecimal digits exactly if its length is even and it has no other
/// characters than the digits.
pub proof fn law_told_hexadecimal(text: String, b: bool)
    requires
        call_ensures(hex, (&text,), b),
    ensures
        b <==> text@.len() % 2 == 0 && forall|i: int|
            0 <= i < text@.len() ==> ('0' <= #[trigger] text@[i] <= '9' || 'a' <= text@[i] <= 'f'
                || 'A' <= text@[i] <= 'F'),
{
    crate::sv1::law_hexadecimal_texts(text@);
}

/// A message is a request for a method exactly if it is a request that names that very method.
pub proof fn law_told_call(message: Sv1Message, name: &str, b: bool)
    requires
        call_ensures(is_call, (&message, name), b),
    ensures
        b <==> (message matches Sv1Message::Request { method, .. } && method@ == name@),
{
}

/// Read as a whole, a text that is a request for `mining.authorize` with two texts tells the token in
/// it, one that is a request for `mining.subscribe` with a user agent is answered for that user agent,
/// one that is a request for another method is left to the upstream, and so is one that is no message
/// at all.
pub proof fn law_read_greetings(
    msg: String,
    extranonce2_size: usize,
    greeting: Greeting,
    id: u64,
    method: Seq<char>,
    params: Option<Seq<crate::sv1::JsonView>>,
    name: Seq<char>,
    password: Seq<char>,
)
    requires
        call_ensures(read_greeting, (&msg, extranonce2_size), greeting),
    ensures
        crate::sv1::sv1_message(msg@) is None ==> greeting is Other,
        crate::sv1::sv1_message(msg@) == Some(
            crate::sv1::Sv1MessageView::Request { id, method, params },
        ) && method != "mining.authorize"@ && method != "mining.subscribe"@ ==> greeting is Other,
        crate::sv1::sv1_message(msg@) == Some(
            crate::sv1::Sv1MessageView::Request {
                id,
                method: "mining.authorize"@,
                params: Some(
                    seq![
                        crate::sv1::JsonView::Text(name),
                        crate::sv1::JsonView::Text(password),
                    ],
                ),
            },
        ) ==> (greeting matches Greeting::Authorize(token) && token@
            == if crate::sv1::is_blank(password) {
            name
        } else {
            password
        }),
        crate::sv1::sv1_message(msg@) == Some(
            crate::sv1::Sv1MessageView::Request {
                id,
                method: "mining.subscribe"@,
                params: Some(seq![crate::sv1::JsonView::Text(name)]),
            },
        ) ==> (greeting matches Greeting::Subscribe(answer) && answer.user_agent@ == name),
{
    law_greetings_are_told_apart(greeting, crate::sv1::sv1_message(msg@), extranonce2_size);
    law_token_of_a_request(id, name, password);
    law_who_subscribes(
        crate::sv1::Sv1MessageView::Request {
            id,
            method: "mining.subscribe"@,
            params: Some(seq![crate::sv1::JsonView::Text(name)]),
        },
    );
}

/// A request to subscribe is found to be one that cannot be answered exactly if it comes with a user
/// agent and with more than 64 hexadecimal digits.
pub proof fn law_found_oversized(message: Sv1Message, b: bool)
    requires
        call_ensures(is_oversized_subscribe, (&message,), b),
    ensures
        b <==> (message@ matches crate::sv1::Sv1MessageView::Request {
            method,
            params: Some(params),
            ..
        } && method == "mining.subscribe"@ && params.len() == 2 && params[0] is Text
            && params[1] is Text && crate::sv1::is_hex(params[1]->Text_0)
            && params[1]->Text_0.len() > 64),
{
    law_who_cannot_be_answered(message@);
}

} // verus!
