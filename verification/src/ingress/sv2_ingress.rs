//! The way in for downstreams of the translator that speak SV2: the connection is set up here,
//! and mining messages are passed on in both directions.
use demand_share_accounting_ext::parser::PoolExtMessages;
use roles_logic_sv2::parsers::{CommonMessages, Mining};
use vstd::prelude::*;

use crate::flow::{after_send, Flow};
use crate::keys::{parse_secret, KeyPair};
use crate::messages::{CommonMessage, SetupConnectionSuccess};

verus! {

/// For how many seconds the certificate of a handshake is valid.
pub const DEFAULT_CERT_VALIDITY: u64 = 3600;

/// The extension whose messages are about the accounting of shares.
pub const SHARE_ACCOUNTING_EXTENSION: u16 = 32;

/// What the listener needs to start.
pub struct ListenerPlan {
    pub listen_addr: String,
    pub keys: KeyPair,
}

/// Decides whether to listen: both the address and the secret have to be configured, and the
/// secret has to be one.
pub fn start_listen_for_sv2_downstream(
    listen_addr: Option<String>,
    auth_secret: Option<String>,
) -> (plan: Option<ListenerPlan>)
    ensures
        match (listen_addr, auth_secret) {
            (Some(addr), Some(secret)) => match crate::keys::key_pair_of_secret(secret@) {
                Some((public_key, private_key)) => {
                    &&& plan matches Some(p)
                    &&& p.listen_addr@ == addr@
                    &&& p.keys.public_key@ == public_key
                    &&& p.keys.private_key@ == private_key
                },
                None => plan is None,
            },
            _ => plan is None,
        },
{
    match (listen_addr, auth_secret) {
        (Some(listen_addr), Some(secret)) => match parse_secret(&secret) {
            Some(keys) => Some(ListenerPlan { listen_addr, keys }),
            None => None,
        },
        _ => None,
    }
}

/// What came over a connection.
pub enum Incoming {
    /// A frame of the handshake.
    NotSv2,
    /// A frame without a header.
    NoHeader,
    Frame { extension: u16, message_type: u8, payload: Vec<u8> },
}

/// A mining message of `roles_logic_sv2`, passed on unread.
#[verifier::external_type_specification]
#[verifier::external_body]
pub struct ExMining<'a>(roles_logic_sv2::parsers::Mining<'a>);

/// What a frame says.
pub enum IngressMessage {
    Mining(Mining<'static>),
    Common(CommonMessage),
    /// A message of another protocol.
    Unsupported,
    /// No message at all.
    Invalid,
}

/// Whether a frame belongs to the accounting of shares. The topmost bit of the extension only says
/// whether the message belongs to a channel.
pub open spec fn is_share_accounting(extension: u16) -> bool {
    extension % 0x8000 == SHARE_ACCOUNTING_EXTENSION
}

/// What a frame says.
pub uninterp spec fn ingress_message(
    extension: u16,
    message_type: u8,
    payload: Seq<u8>,
) -> IngressMessage;

/// Calls the conversion from a frame to `PoolExtMessages` of `demand_share_accounting_ext`, a
/// function of the extension, the type and the payload of the frame. A mining message is taken
/// over as it is, and a message about the connection as far as the router reads it. Frames of the
/// accounting of shares are left out, since the conversion panics on some of them.
#[verifier::external_body]
fn parse_frame(extension: u16, message_type: u8, mut payload: Vec<u8>) -> (message: IngressMessage)
    requires
        !is_share_accounting(extension),
    ensures
        message == ingress_message(extension, message_type, payload@),
{
    match PoolExtMessages::try_from((extension, message_type, &mut payload[..])) {
        Ok(PoolExtMessages::Mining(m)) => IngressMessage::Mining(m.into_static()),
        Ok(PoolExtMessages::Common(CommonMessages::SetupConnection(m))) => IngressMessage::Common(
            CommonMessage::SetupConnection { protocol: m.protocol as u8, flags: m.flags },
        ),
        Ok(PoolExtMessages::Common(_)) => IngressMessage::Common(CommonMessage::Other),
        Ok(_) => IngressMessage::Unsupported,
        Err(_) => IngressMessage::Invalid,
    }
}

/// The message in what came over a connection. One of the accounting of shares is none for the
/// router, whatever it says.
pub open spec fn message_in(incoming: Incoming) -> IngressMessage {
    match incoming {
        Incoming::Frame { extension, message_type, payload } => if is_share_accounting(extension) {
            IngressMessage::Unsupported
        } else {
            ingress_message(extension, message_type, payload@)
        },
        _ => IngressMessage::Invalid,
    }
}

/// Reads what came over a connection.
fn read_message(incoming: Incoming) -> (message: IngressMessage)
    ensures
        message == message_in(incoming),
{
    match incoming {
        Incoming::Frame { extension, message_type, payload } => {
            if extension % 0x8000 == SHARE_ACCOUNTING_EXTENSION {
                IngressMessage::Unsupported
            } else {
                parse_frame(extension, message_type, payload)
            }
        },
        _ => IngressMessage::Invalid,
    }
}

/// The answer to a message while the connection is being set up: a `SetupConnection` is answered,
/// whichever protocol it asks for, with its own flags, and anything else is passed over.
pub open spec fn setup_answer(message: IngressMessage) -> Option<SetupConnectionSuccess> {
    match message {
        IngressMessage::Common(CommonMessage::SetupConnection { flags, .. }) => Some(
            SetupConnectionSuccess { used_version: 2, flags },
        ),
        _ => None,
    }
}

/// The answer to a message while the connection is being set up.
pub fn answer_setup(message: &IngressMessage) -> (answer: Option<SetupConnectionSuccess>)
    ensures
        answer == setup_answer(*message),
{
    match message {
        IngressMessage::Common(CommonMessage::SetupConnection { flags, .. }) => Some(
            SetupConnectionSuccess { used_version: 2, flags: *flags },
        ),
        _ => None,
    }
}

/// The answer to what came over the connection while it is being set up. The connection is set up
/// once an answer was sent; until then the next one is awaited.
pub fn handle_setup_connection(incoming: Incoming) -> (answer: Option<SetupConnectionSuccess>)
    ensures
        answer == setup_answer(message_in(incoming)),
{
    answer_setup(&read_message(incoming))
}

/// The message that is passed on to the translator: mining messages are, and nothing else.
pub open spec fn passed_on(message: IngressMessage) -> Option<Mining<'static>> {
    match message {
        IngressMessage::Mining(mining) => Some(mining),
        _ => None,
    }
}

/// The message that is passed on to the translator.
pub fn pass_on(message: IngressMessage) -> (mining: Option<Mining<'static>>)
    ensures
        mining == passed_on(message),
{
    match message {
        IngressMessage::Mining(mining) => Some(mining),
        _ => None,
    }
}

/// The message that is passed on to the translator out of what came over the connection. Where it
/// cannot be sent the connection is over.
pub fn relay_from_downstream(incoming: Incoming) -> (mining: Option<Mining<'static>>)
    ensures
        mining == passed_on(message_in(incoming)),
{
    pass_on(read_message(incoming))
}

/// What became of a message of the translator to a downstream.
#[derive(Clone, Copy, Debug, PartialEq, Eq, Structural)]
pub enum Outgoing {
    /// It could not be turned into a frame.
    NotEncoded,
    /// It was handed to the connection, or failed to be.
    Handed { sent: bool },
}

/// Whether messages are passed on to the downstream any longer: a message that cannot be turned
/// into a frame is passed over, and one that cannot be sent is the last.
pub fn relay_to_downstream(outgoing: Outgoing) -> (flow: Flow)
    ensures
        flow == (if outgoing == (Outgoing::Handed { sent: false }) {
            Flow::Stop
        } else {
            Flow::Continue
        }),
{
    match outgoing {
        Outgoing::NotEncoded => Flow::Continue,
        Outgoing::Handed { sent } => after_send(sent),
    }
}

/// Whether a frame belongs to the accounting of shares is told by the lower 15 bits of its extension.
pub proof fn law_extension_of_the_accounting(extension: u16)
    ensures
        is_share_accounting(extension) <==> extension == 32 || extension == 0x8020,
{
}

/// What came over a connection is read as the frame that it is, unless it belongs to the accounting
/// of shares. What is no frame is no message.
pub proof fn law_frames_are_read(extension: u16, message_type: u8, payload: Vec<u8>)
    ensures
        extension != 32 && extension != 0x8020 ==> message_in(
            Incoming::Frame { extension, message_type, payload },
        ) == ingress_message(extension, message_type, payload@),
        extension == 32 || extension == 0x8020 ==> message_in(
            Incoming::Frame { extension, message_type, payload },
        ) is Unsupported,
        message_in(Incoming::NotSv2) is Invalid,
        message_in(Incoming::NoHeader) is Invalid,
{
    law_extension_of_the_accounting(extension);
}

/// A connection is set up exactly by a `SetupConnection`, for any protocol, and the answer gives its
/// own flags back, whatever they are.
pub proof fn law_setup_gives_the_flags_back(message: IngressMessage, protocol: u8, flags: u32)
    ensures
        setup_answer(message) is Some <==> (message matches IngressMessage::Common(common) && common
            is SetupConnection),
        message == IngressMessage::Common(CommonMessage::SetupConnection { protocol, flags })
            ==> setup_answer(message) == Some(SetupConnectionSuccess { used_version: 2, flags }),
{
}

/// A message is passed on to the translator exactly if it is one about mining, and it is passed on
/// as it is.
pub proof fn law_mining_messages_are_passed_on(message: IngressMessage, mining: Mining<'static>)
    ensures
        passed_on(message) == Some(mining) <==> message == IngressMessage::Mining(mining),
{
}

/// Frames that hold a `SetupConnection` are answered with version 2 and their own flags, whatever
/// protocol they name, and nothing else is answered. Frames about mining are passed on as they are,
/// and nothing else is passed on.
pub proof fn law_what_frames_come_to(
    extension: u16,
    message_type: u8,
    payload: Vec<u8>,
    answer: Option<SetupConnectionSuccess>,
    passed: Option<Mining<'static>>,
    mining: Mining<'static>,
)
    requires
        extension != 32,
        extension != 0x8020,
        call_ensures(
            handle_setup_connection,
            (Incoming::Frame { extension, message_type, payload },),
            answer,
        ),
        call_ensures(
            relay_from_downstream,
            (Incoming::Frame { extension, message_type, payload },),
            passed,
        ),
    ensures
        match ingress_message(extension, message_type, payload@) {
            IngressMessage::Common(CommonMessage::SetupConnection { protocol, flags }) => {
                answer matches Some(a) && a.used_version == 2 && a.flags == flags
            },
            _ => answer is None,
        },
        passed == Some(mining) <==> ingress_message(extension, message_type, payload@)
            == IngressMessage::Mining(mining),
{
    law_extension_of_the_accounting(extension);
}

/// What is no frame, and a frame of the accounting of shares, is neither answered nor passed on.
pub proof fn law_what_is_passed_over(
    incoming: Incoming,
    answer: Option<SetupConnectionSuccess>,
    passed: Option<Mining<'static>>,
)
    requires
        incoming matches Incoming::Frame { extension, .. } ==> extension == 32 || extension
            == 0x8020,
        call_ensures(handle_setup_connection, (incoming,), answer),
        call_ensures(relay_from_downstream, (incoming,), passed),
    ensures
        answer is None,
        passed is None,
{
    if let Incoming::Frame { extension, message_type, payload } = incoming {
        law_extension_of_the_accounting(extension);
    }
}

/// Messages are answered and passed on for what they are, however they came in.
pub proof fn law_what_messages_come_to(
    message: IngressMessage,
    answer: Option<SetupConnectionSuccess>,
    passed: Option<Mining<'static>>,
    mining: Mining<'static>,
    flags: u32,
)
    requires
        call_ensures(answer_setup, (&message,), answer),
        call_ensures(pass_on, (message,), passed),
    ensures
        answer == Some(SetupConnectionSuccess { used_version: 2, flags }) <==> (
        message matches IngressMessage::Common(CommonMessage::SetupConnection { flags: f, .. }) && f
            == flags),
        answer matches Some(a) ==> a.used_version == 2,
        passed == Some(mining) <==> message == IngressMessage::Mining(mining),
{
}

/// The listener starts exactly if an address and a secret key are configured, on that very address
/// and with the keys of that very secret.
pub proof fn law_when_to_listen(
    listen_addr: Option<String>,
    auth_secret: Option<String>,
    plan: Option<ListenerPlan>,
)
    requires
        call_ensures(start_listen_for_sv2_downstream, (listen_addr, auth_secret), plan),
    ensures
        plan is Some <==> listen_addr is Some && (auth_secret matches Some(secret)
            && crate::keys::key_pair_of_secret(secret@) is Some),
        plan matches Some(p) ==> {
            &&& p.listen_addr@ == listen_addr->0@
            &&& crate::keys::key_pair_of_secret(auth_secret->0@) == Some(
                (p.keys.public_key@, p.keys.private_key@),
            )
        },
{
}

/// Messages are passed on to a downstream until one cannot be sent. One that cannot be turned into a
/// frame does not end that.
pub proof fn law_when_relaying_ends(outgoing: Outgoing, flow: Flow)
    requires
        call_ensures(relay_to_downstream, (outgoing,), flow),
    ensures
        flow == Flow::Stop <==> outgoing == (Outgoing::Handed { sent: false }),
{
}

} // verus!
