//! The messages of SV1 downstreams, JSON texts, as far as the router reads and writes them.
use serde_json::Value;
use sv1_api::client_to_server::{Authorize, Subscribe};
use sv1_api::json_rpc::Message;
use sv1_api::utils::Extranonce;
use vstd::prelude::*;

verus! {

/// A parameter of a request.
pub enum Json {
    Null,
    Text(String),
    Other,
}

/// A message of a downstream.
pub enum Sv1Message {
    /// A request, with its parameters where they are a list.
    Request { id: u64, method: String, params: Option<Vec<Json>> },
    /// A notification or a response.
    Other,
}

/// What a [`Json`] stands for.
pub ghost enum JsonView {
    Null,
    Text(Seq<char>),
    Other,
}

/// What a [`Sv1Message`] stands for.
pub ghost enum Sv1MessageView {
    Request { id: u64, method: Seq<char>, params: Option<Seq<JsonView>> },
    Other,
}

impl View for Json {
    type V = JsonView;

    open spec fn view(&self) -> JsonView {
        match *self {
            Json::Null => JsonView::Null,
            Json::Text(text) => JsonView::Text(text@),
            Json::Other => JsonView::Other,
        }
    }
}

impl View for Sv1Message {
    type V = Sv1MessageView;

    open spec fn view(&self) -> Sv1MessageView {
        match *self {
            Sv1Message::Request { id, method, params } => Sv1MessageView::Request {
                id,
                method: method@,
                params: match params {
                    Some(params) => Some(params@.map_values(|p: Json| p@)),
                    None => None,
                },
            },
            Sv1Message::Other => Sv1MessageView::Other,
        }
    }
}

/// What a text says, if it is a message.
pub uninterp spec fn sv1_message(text: Seq<char>) -> Option<Sv1MessageView>;

/// Calls `serde_json::from_str` for the `Message` of `sv1_api`, a function of the text, and takes
/// over what the router reads of the result.
#[verifier::external_body]
pub(crate) fn parse_message(text: &String) -> (message: Option<Sv1Message>)
    ensures
        match message {
            Some(m) => sv1_message(text@) == Some(m@),
            None => sv1_message(text@) is None,
        },
{
    Some(match serde_json::from_str::<Message>(text).ok()? {
        Message::StandardRequest(r) => Sv1Message::Request {
            id: r.id,
            method: r.method,
            params: r.params.as_array().map(|params| params.iter().map(|p| match p {
                Value::Null => Json::Null,
                Value::String(text) => Json::Text(text.clone()),
                _ => Json::Other,
            }).collect()),
        },
        _ => Sv1Message::Other,
    })
}

/// The name and the password in a request to be authorized, which has to have exactly these two
/// parameters.
pub open spec fn authorization(message: Sv1MessageView) -> Option<(Seq<char>, Seq<char>)> {
    match message {
        Sv1MessageView::Request { params: Some(params), .. } => if params.len() == 2
            && params[0] is Text && params[1] is Text {
            Some((params[0]->Text_0, params[1]->Text_0))
        } else {
            None
        },
        _ => None,
    }
}

/// Parses a text that is a message with `serde_json::from_str`, and calls the conversion of
/// `sv1_api` from a request to `Authorize`. There is a result exactly if the message is a request
/// with a list of two strings, which are the name and the password. The method is not looked at.
#[verifier::external_body]
pub(crate) fn parse_authorize(text: &String) -> (names: Option<(String, String)>)
    ensures
        match sv1_message(text@) {
            Some(message) => match names {
                Some((name, password)) => authorization(message) == Some((name@, password@)),
                None => authorization(message) is None,
            },
            None => names is None,
        },
{
    match serde_json::from_str::<Message>(text).ok()? {
        Message::StandardRequest(r) => Authorize::try_from(r).ok().map(|a| (a.name, a.password)),
        _ => None,
    }
}

/// Whether a character is a hexadecimal digit.
pub open spec fn is_hex_digit(c: char) -> bool {
    '0' <= c <= '9' || 'a' <= c <= 'f' || 'A' <= c <= 'F'
}

/// Whether a text is that of bytes in hexadecimal digits.
pub open spec fn is_hex(text: Seq<char>) -> bool {
    &&& text.len() % 2 == 0
    &&& forall|i: int| 0 <= i < text.len() ==> is_hex_digit(#[trigger] text[i])
}

/// The most hexadecimal digits that an extranonce has.
pub const MAX_EXTRANONCE_DIGITS: usize = 64;

/// Whether the parameters are a user agent and an extranonce to be resumed that is too long to be
/// one.
pub open spec fn is_oversized(params: Seq<JsonView>) -> bool {
    &&& params.len() == 2
    &&& params[0] is Text
    &&& params[1] matches JsonView::Text(digits)
    &&& is_hex(digits)
    &&& digits.len() > MAX_EXTRANONCE_DIGITS
}

/// Whether a message is a request whose parameters ask to resume an extranonce that is too long.
pub open spec fn resumes_oversized(message: Sv1MessageView) -> bool {
    message matches Sv1MessageView::Request { params: Some(params), .. } && is_oversized(params)
}

/// The user agent in a request to subscribe. It comes alone, or with an extranonce to be resumed,
/// or in one of two longer forms that some miners use; a request without parameters has an empty
/// one.
pub open spec fn user_agent_in(params: Seq<JsonView>) -> Option<Seq<char>> {
    if params.len() == 0 {
        Some(Seq::empty())
    } else if params[0] !is Text {
        None
    } else if params.len() == 1 || (params.len() == 2 && params[1] is Null) || (params.len() == 2
        && params[1] is Text && is_hex(params[1]->Text_0)) || (params.len() == 4
        && params[1] is Null && params[2] is Text && params[3] is Null) {
        Some(params[0]->Text_0)
    } else {
        None
    }
}

/// The id and the user agent of a request to subscribe.
pub open spec fn subscription(message: Sv1MessageView) -> Option<(u64, Seq<char>)> {
    match message {
        Sv1MessageView::Request { id, params: Some(params), .. } => match user_agent_in(params) {
            Some(user_agent) => Some((id, user_agent)),
            None => None,
        },
        _ => None,
    }
}

/// Parses a text that is a message with `serde_json::from_str`, and calls the conversion of
/// `sv1_api` from a request to `Subscribe`. There is a result exactly if the message is a request
/// whose parameters are of one of the forms that the conversion knows: its id and its user agent.
/// The method is not looked at. The conversion panics on an extranonce that is too long, which is
/// left out.
#[verifier::external_body]
pub(crate) fn parse_subscribe(text: &String) -> (request: Option<(u64, String)>)
    requires
        sv1_message(text@) matches Some(message) ==> !resumes_oversized(message),
    ensures
        match sv1_message(text@) {
            Some(message) => match request {
                Some((id, user_agent)) => subscription(message) == Some((id, user_agent@)),
                None => subscription(message) is None,
            },
            None => request is None,
        },
{
    match serde_json::from_str::<Message>(text).ok()? {
        Message::StandardRequest(r) => Subscribe::try_from(r).ok().map(|s| (s.id, s.agent_signature)),
        _ => None,
    }
}

/// Whether a text is a single line, with the line feed at its end.
pub open spec fn is_line(text: Seq<char>) -> bool {
    &&& text.len() > 0
    &&& text.last() == '\n'
    &&& !text.drop_last().contains('\n')
}

/// What subscriptions stand for.
pub open spec fn subscriptions_view(subscriptions: Seq<(String, String)>) -> Seq<
    (Seq<char>, Seq<char>),
> {
    subscriptions.map_values(|s: (String, String)| (s.0@, s.1@))
}

/// The response to a request to subscribe, as a text.
pub uninterp spec fn subscribe_response(
    id: u64,
    subscriptions: Seq<(Seq<char>, Seq<char>)>,
    extranonce1: Seq<u8>,
    extranonce2_size: usize,
) -> Seq<char>;

/// Calls `Subscribe::respond` of `sv1_api`, of which only the id of the request matters, and turns
/// the response into a text with `serde_json::to_string`: a function of the arguments. There is a
/// text exactly if the extranonce is not too long to be one. The text is in the compact form, in
/// which strings are escaped, so that no line ends in it.
#[verifier::external_body]
pub(crate) fn respond_to_subscribe(
    id: u64,
    subscriptions: Vec<(String, String)>,
    extranonce1: Vec<u8>,
    extranonce2_size: usize,
) -> (response: Option<String>)
    ensures
        match response {
            Some(text) => {
                &&& extranonce1@.len() <= 32
                &&& text@ == subscribe_response(
                    id,
                    subscriptions_view(subscriptions@),
                    extranonce1@,
                    extranonce2_size,
                )
                &&& !text@.contains('\n')
            },
            None => extranonce1@.len() > 32,
        },
{
    let extranonce1 = Extranonce::try_from(extranonce1).ok()?;
    let request = Subscribe { id, agent_signature: String::new(), extranonce1: None };
    let response = request.respond(subscriptions, extranonce1, extranonce2_size);
    serde_json::to_string(&Message::from(response)).ok()
}

/// Whether a character has the Unicode property `White_Space`.
pub open spec fn is_white_space(c: char) -> bool {
    let code = c as u32;
    ||| 0x9 <= code <= 0xd
    ||| code == 0x20
    ||| code == 0x85
    ||| code == 0xa0
    ||| code == 0x1680
    ||| 0x2000 <= code <= 0x200a
    ||| code == 0x2028
    ||| code == 0x2029
    ||| code == 0x202f
    ||| code == 0x205f
    ||| code == 0x3000
}

/// Whether there is nothing in a text but white space.
pub open spec fn is_blank(text: Seq<char>) -> bool {
    forall|i: int| 0 <= i < text.len() ==> is_white_space(#[trigger] text[i])
}

/// Whether the second text is the first without the white space at its ends.
pub open spec fn is_trimmed(text: Seq<char>, trimmed: Seq<char>) -> bool {
    exists|start: int, end: int|
        {
            &&& 0 <= start <= end <= text.len()
            &&& trimmed == #[trigger] text.subrange(start, end)
            &&& is_blank(text.take(start))
            &&& is_blank(text.skip(end))
            &&& start < end ==> !is_white_space(text[start]) && !is_white_space(text[end - 1])
        }
}

/// `str::trim` of the standard library: the text without the white space at its ends.
pub assume_specification[ str::trim ](text: &str) -> (trimmed: &str)
    ensures
        is_trimmed(text@, trimmed@),
;

/// Whether there is nothing in a text but white space.
pub fn blank(text: &String) -> (b: bool)
    ensures
        b == is_blank(text@),
{
    let trimmed = text.as_str().trim();
    proof {
        let (start, end) = choose|start: int, end: int|
            {
                &&& 0 <= start <= end <= text@.len()
                &&& trimmed@ == #[trigger] text@.subrange(start, end)
                &&& is_blank(text@.take(start))
                &&& is_blank(text@.skip(end))
                &&& start < end ==> !is_white_space(text@[start]) && !is_white_space(text@[end - 1])
            };
        if start == end {
            assert forall|i: int| 0 <= i < text@.len() implies is_white_space(
                #[trigger] text@[i],
            ) by {
                if i < start {
                    assert(text@.take(start)[i] == text@[i]);
                } else {
                    assert(text@.skip(end)[i - end] == text@[i]);
                }
            }
        }
    }
    trimmed.is_empty()
}

/// A character is white space exactly if it is one of those that Unicode counts as such.
pub proof fn law_white_space(c: char)
    ensures
        is_white_space(c) <==> (0x9 <= c as u32 <= 0xd || c as u32 == 0x20 || c as u32 == 0x85 || c
            as u32 == 0xa0 || c as u32 == 0x1680 || 0x2000 <= c as u32 <= 0x200a || c as u32
            == 0x2028 || c as u32 == 0x2029 || c as u32 == 0x202f || c as u32 == 0x205f || c as u32
            == 0x3000),
{
}

/// Whether two texts together are blank is told by each of them, and a text of no characters is.
pub proof fn law_blank_texts(a: Seq<char>, b: Seq<char>)
    ensures
        is_blank(Seq::empty()),
        is_blank(a + b) <==> is_blank(a) && is_blank(b),
{
    if is_blank(a + b) {
        assert forall|i: int| 0 <= i < a.len() implies is_white_space(#[trigger] a[i]) by {
            assert((a + b)[i] == a[i]);
        }
        assert forall|i: int| 0 <= i < b.len() implies is_white_space(#[trigger] b[i]) by {
            assert((a + b)[a.len() + i] == b[i]);
        }
    }
}

/// A text of one character is blank exactly if the character is white space.
pub proof fn law_blank_character(c: char)
    ensures
        is_blank(seq![c]) <==> is_white_space(c),
{
    assert(seq![c][0] == c);
}

/// A text is one of bytes in hexadecimal digits exactly if its length is even and every character is
/// one of 0 to 9, a to f and A to F.
pub proof fn law_hexadecimal_texts(text: Seq<char>)
    ensures
        is_hex(text) <==> text.len() % 2 == 0 && forall|i: int|
            0 <= i < text.len() ==> ('0' <= #[trigger] text[i] <= '9' || 'a' <= text[i] <= 'f'
                || 'A' <= text[i] <= 'F'),
{
    if is_hex(text) {
        assert forall|i: int| 0 <= i < text.len() implies ('0' <= #[trigger] text[i] <= '9' || 'a'
            <= text[i] <= 'f' || 'A' <= text[i] <= 'F') by {
            assert(is_hex_digit(text[i]));
        }
    }
}

/// A single line ends in a line feed, and holds no other.
pub proof fn law_single_lines(line: Seq<char>)
    ensures
        !line.contains('\n') ==> is_line(line.push('\n')),
        is_line(line) ==> line.len() > 0 && line.last() == '\n' && forall|i: int|
            0 <= i < line.len() - 1 ==> #[trigger] line[i] != '\n',
{
    assert(line.push('\n').drop_last() =~= line);
    if is_line(line) {
        assert forall|i: int| 0 <= i < line.len() - 1 implies #[trigger] line[i] != '\n' by {
            assert(line.drop_last()[i] == line[i]);
            assert(line.drop_last().contains(line.drop_last()[i]));
        }
    }
}

/// A text is found blank exactly if every character in it is white space.
pub proof fn law_found_blank(text: String, b: bool)
    requires
        call_ensures(blank, (&text,), b),
    ensures
        b <==> forall|i: int| 0 <= i < text@.len() ==> is_white_space(#[trigger] text@[i]),
{
}

} // verus!
