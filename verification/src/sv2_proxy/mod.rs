//! The proxy for downstreams that speak SV2 themselves and mine with standard channels.
use roles_logic_sv2::common_messages_sv2::has_requires_std_job;
use vstd::prelude::*;

use crate::messages::{
    parse_common, parse_mining, CommonMessage, MiningMessage, SetupConnectionSuccess,
    MINING_PROTOCOL,
};
use crate::net::IpAddr;

pub mod upstream;

use upstream::pending::OpenChannelReq;
use upstream::shares::{reply_to, ShareReply, ShareResponse, SubmitSharesStandard};

verus! {

/// The flags of the answer to a `SetupConnection`.
pub const SETUP_FLAGS: u32 = 6;

/// How many seconds a handshake may take.
pub const HANDSHAKE_TIMEOUT: u64 = 5;

/// How the attempt at a handshake with a downstream ended.
#[derive(Clone, Copy, Debug, PartialEq, Eq, Structural)]
pub enum Handshake {
    Completed,
    Failed,
    TimedOut,
}

/// The listener for downstreams. It hands out the ids of their channels.
pub struct Listener {
    next_id: u32,
}

impl View for Listener {
    type V = u32;

    closed spec fn view(&self) -> u32 {
        self.next_id
    }
}

impl Listener {
    /// A listener whose first downstream gets the id 1.
    pub fn new() -> (listener: Self)
        ensures
            listener@ == 1,
    {
        Listener { next_id: 1 }
    }

    /// Whether a connection gets a handshake: those from private addresses are dropped.
    pub fn admits(&self, peer: &IpAddr) -> (b: bool)
        ensures
            b == !peer.private(),
    {
        !peer.is_private()
    }

    /// The id for a downstream, if its handshake was completed. No id is handed out twice.
    pub fn on_handshake(&mut self, handshake: Handshake) -> (id: Option<u32>)
        requires
            handshake == Handshake::Completed ==> old(self)@ < u32::MAX,
        ensures
            match handshake {
                Handshake::Completed => id == Some(old(self)@) && final(self)@ == old(self)@ + 1,
                _ => id is None && final(self)@ == old(self)@,
            },
    {
        match handshake {
            Handshake::Completed => {
                let id: u32 = self.next_id;
                self.next_id = id + 1;
                Some(id)
            },
            _ => None,
        }
    }

    /// Whether there is an id left for another downstream.
    pub fn has_ids(&self) -> (b: bool)
        ensures
            b == (self@ < u32::MAX),
    {
        self.next_id < u32::MAX
    }
}

/// The ids that a listener hands out over a run of handshakes, given the first of them.
pub open spec fn ids_after(first: int, handshakes: Seq<Handshake>) -> Seq<int>
    decreases handshakes.len(),
{
    if handshakes.len() == 0 {
        Seq::empty()
    } else {
        let ids = ids_after(first, handshakes.drop_last());
        if handshakes.last() == Handshake::Completed {
            ids.push(first + ids.len())
        } else {
            ids
        }
    }
}

/// The ids of the downstreams count up by one from the first, so that no two have the same.
pub proof fn law_ids_count_up(first: int, handshakes: Seq<Handshake>)
    ensures
        forall|i: int|
            0 <= i < ids_after(first, handshakes).len() ==> #[trigger] ids_after(
                first,
                handshakes,
            )[i] == first + i,
        ids_after(first, handshakes).no_duplicates(),
    decreases handshakes.len(),
{
    if handshakes.len() > 0 {
        law_ids_count_up(first, handshakes.drop_last());
    }
}

/// How far a downstream is.
#[derive(Clone, Copy, Debug, PartialEq, Eq, Structural)]
pub enum DownstreamStage {
    /// Its first message sets up the connection.
    Setup,
    /// The next one asks for its channel.
    Open,
    /// Every other one is a share.
    Mining,
    /// What becomes of a share is being found out.
    Submitting(SubmitSharesStandard),
    /// It said something else and is dropped.
    Dropped,
}

/// What is to be done about a message of a downstream that has no channel yet.
#[derive(Clone, Copy, Debug, PartialEq, Eq, Structural)]
pub enum StartAction {
    /// Send the answer.
    Answer(SetupConnectionSuccess),
    /// Open the channel.
    Open(OpenChannelReq),
}

/// The answer to a message that should set up the connection: it has to be for the mining protocol,
/// by a downstream that wants standard jobs only.
pub open spec fn setup_answer(message: CommonMessage) -> Option<SetupConnectionSuccess> {
    match message {
        CommonMessage::SetupConnection { protocol, flags } => if protocol == MINING_PROTOCOL
            && flags % 2 == 1 {
            Some(SetupConnectionSuccess { used_version: 2, flags: SETUP_FLAGS })
        } else {
            None
        },
        CommonMessage::Other => None,
    }
}

/// The request in a message that should ask for a channel.
pub open spec fn open_request(message: MiningMessage, id: u32) -> Option<OpenChannelReq> {
    match message {
        MiningMessage::OpenStandardMiningChannel { request_id, nominal_hash_rate } => Some(
            OpenChannelReq {
                request_id,
                downstream_hash_rate: nominal_hash_rate,
                is_header_only: true,
                id,
            },
        ),
        _ => None,
    }
}

/// The share in a message that should be one.
pub open spec fn submitted_share(message: MiningMessage) -> Option<SubmitSharesStandard> {
    match message {
        MiningMessage::SubmitSharesStandard(share) => Some(share),
        _ => None,
    }
}

/// A connection is set up exactly for a downstream that asks for the mining protocol and wants
/// standard jobs, and the answer is the same for all of them.
pub proof fn law_who_is_set_up(message: CommonMessage)
    ensures
        setup_answer(message) is Some <==> (message matches CommonMessage::SetupConnection {
            protocol,
            flags,
        } && protocol == 0 && flags % 2 == 1),
        setup_answer(message) matches Some(answer) ==> answer.used_version == 2 && answer.flags
            == 6,
{
}

/// A request for a channel is one exactly if it is for a standard channel. It is taken over with the
/// id and the hash rate that the downstream named, whatever they are, for a channel with the id that
/// the proxy gave to it.
pub proof fn law_requests_are_taken_over(message: MiningMessage, id: u32)
    ensures
        open_request(message, id) is Some <==> message is OpenStandardMiningChannel,
        open_request(message, id) matches Some(request) ==> {
            &&& message == (MiningMessage::OpenStandardMiningChannel {
                request_id: request.request_id,
                nominal_hash_rate: request.downstream_hash_rate,
            })
            &&& request.is_header_only
            &&& request.id == id
        },
{
}

/// Two requests for a channel that come to the same are the same.
pub proof fn law_requests_are_told_apart(a: MiningMessage, b: MiningMessage, id: u32)
    requires
        open_request(a, id) is Some,
        open_request(a, id) == open_request(b, id),
    ensures
        a == b,
{
    law_requests_are_taken_over(a, id);
    law_requests_are_taken_over(b, id);
}

/// A share is the very one that is in the message, and other messages hold none.
pub proof fn law_shares_are_taken_over(message: MiningMessage, share: SubmitSharesStandard)
    ensures
        submitted_share(message) == Some(share) <==> message
            == MiningMessage::SubmitSharesStandard(share),
{
}

/// A downstream that mines with a standard channel.
pub struct Downstream {
    id: u32,
    stage: DownstreamStage,
}

/// What a frame of a downstream that has no channel yet comes to: what is to be done and how far
/// the downstream is after it, or nothing where it is dropped.
pub open spec fn started(
    stage: DownstreamStage,
    id: u32,
    common: Option<CommonMessage>,
    mining: Option<MiningMessage>,
) -> Option<(StartAction, DownstreamStage)> {
    match (stage, common, mining) {
        (DownstreamStage::Setup, Some(message), _) => match setup_answer(message) {
            Some(answer) => Some((StartAction::Answer(answer), DownstreamStage::Open)),
            None => None,
        },
        (DownstreamStage::Open, _, Some(message)) => match open_request(message, id) {
            Some(request) => Some((StartAction::Open(request), DownstreamStage::Mining)),
            None => None,
        },
        _ => None,
    }
}

/// A downstream that has no channel yet goes from the setup of its connection to the request for its
/// channel and on to mining, and is never sent back: its first frame is one about the connection,
/// and its second one about mining.
pub proof fn law_order_of_a_start(
    stage: DownstreamStage,
    id: u32,
    common: Option<CommonMessage>,
    mining: Option<MiningMessage>,
)
    ensures
        match started(stage, id, common, mining) {
            Some((StartAction::Answer(answer), next)) => {
                &&& stage == DownstreamStage::Setup
                &&& next == DownstreamStage::Open
                &&& common matches Some(message)
                &&& setup_answer(message) == Some(answer)
            },
            Some((StartAction::Open(request), next)) => {
                &&& stage == DownstreamStage::Open
                &&& next == DownstreamStage::Mining
                &&& mining matches Some(message)
                &&& open_request(message, id) == Some(request)
            },
            None => {
                &&& stage == DownstreamStage::Setup ==> (common matches Some(message)
                    ==> setup_answer(message) is None)
                &&& stage == DownstreamStage::Open ==> (mining matches Some(message)
                    ==> open_request(message, id) is None)
            },
        },
{
}

impl Downstream {
    /// How far the downstream is.
    pub closed spec fn stage(&self) -> DownstreamStage {
        self.stage
    }

    /// The id of its channel.
    pub closed spec fn id(&self) -> u32 {
        self.id
    }

    /// A downstream whose handshake was completed, with the id of its channel.
    pub fn new(id: u32) -> (downstream: Self)
        ensures
            downstream.stage() == DownstreamStage::Setup,
            downstream.id() == id,
    {
        Downstream { id, stage: DownstreamStage::Setup }
    }

    /// How far the downstream is.
    pub fn current_stage(&self) -> (stage: DownstreamStage)
        ensures
            stage == self.stage(),
    {
        self.stage
    }

    /// The answer to the message that sets up the connection.
    pub fn accept_setup(message: CommonMessage) -> (answer: Option<SetupConnectionSuccess>)
        ensures
            answer == setup_answer(message),
            answer is Some <==> (message matches CommonMessage::SetupConnection { protocol, flags }
                && protocol == 0 && flags % 2 == 1),
            answer matches Some(a) ==> a.used_version == 2 && a.flags == 6,
    {
        match message {
            CommonMessage::SetupConnection { protocol, flags } => {
                if protocol == MINING_PROTOCOL && has_requires_std_job(flags) {
                    Some(SetupConnectionSuccess { used_version: 2, flags: SETUP_FLAGS })
                } else {
                    None
                }
            },
            CommonMessage::Other => None,
        }
    }

    /// The request in the message that asks for the channel with the given id.
    pub fn accept_open(message: MiningMessage, id: u32) -> (request: Option<OpenChannelReq>)
        ensures
            request == open_request(message, id),
            request is Some <==> message is OpenStandardMiningChannel,
            message matches MiningMessage::OpenStandardMiningChannel {
                request_id,
                nominal_hash_rate,
            } ==> (request matches Some(r) && r.request_id == request_id && r.downstream_hash_rate
                == nominal_hash_rate && r.is_header_only && r.id == id),
    {
        match message {
            MiningMessage::OpenStandardMiningChannel { request_id, nominal_hash_rate } => Some(
                OpenChannelReq {
                    request_id,
                    downstream_hash_rate: nominal_hash_rate,
                    is_header_only: true,
                    id,
                },
            ),
            _ => None,
        }
    }

    /// The share in a message.
    pub fn accept_share(message: MiningMessage) -> (share: Option<SubmitSharesStandard>)
        ensures
            share == submitted_share(message),
            forall|s: SubmitSharesStandard|
                share == Some(s) <==> message == MiningMessage::SubmitSharesStandard(s),
    {
        match message {
            MiningMessage::SubmitSharesStandard(share) => Some(share),
            _ => None,
        }
    }

    /// Takes a frame of a downstream that has no channel yet: the first one is answered, and the
    /// second one asks for the channel. A downstream that says anything else is dropped.
    pub fn start(&mut self, message_type: u8, payload: Vec<u8>) -> (action: Option<StartAction>)
        requires
            old(self).stage() == DownstreamStage::Setup || old(self).stage()
                == DownstreamStage::Open,
        ensures
            final(self).id() == old(self).id(),
            match started(
                old(self).stage(),
                old(self).id(),
                crate::messages::common_message(message_type, payload@),
                crate::messages::mining_message(message_type, payload@),
            ) {
                Some((a, stage)) => action == Some(a) && final(self).stage() == stage,
                None => action is None && final(self).stage() == DownstreamStage::Dropped,
            },
    {
        if self.stage == DownstreamStage::Setup {
            if let Some(message) = parse_common(message_type, payload) {
                if let Some(answer) = Self::accept_setup(message) {
                    self.stage = DownstreamStage::Open;
                    return Some(StartAction::Answer(answer));
                }
            }
        } else {
            if let Some(message) = parse_mining(message_type, payload) {
                if let Some(request) = Self::accept_open(message, self.id) {
                    self.stage = DownstreamStage::Mining;
                    return Some(StartAction::Open(request));
                }
            }
        }
        self.stage = DownstreamStage::Dropped;
        None
    }

    /// Takes a frame of a downstream that has its channel: the share that is to be handed to the
    /// upstream. A downstream that says anything else is dropped.
    pub fn down_to_up(&mut self, message_type: u8, payload: Vec<u8>) -> (share: Option<
        SubmitSharesStandard,
    >)
        requires
            old(self).stage() == DownstreamStage::Mining,
        ensures
            final(self).id() == old(self).id(),
            share == match crate::messages::mining_message(message_type, payload@) {
                Some(message) => submitted_share(message),
                None => None,
            },
            final(self).stage() == match share {
                Some(share) => DownstreamStage::Submitting(share),
                None => DownstreamStage::Dropped,
            },
    {
        let share = match parse_mining(message_type, payload) {
            Some(message) => Self::accept_share(message),
            None => None,
        };
        self.stage = match share {
            Some(share) => DownstreamStage::Submitting(share),
            None => DownstreamStage::Dropped,
        };
        share
    }

    /// Takes what became of the share that was handed to the upstream: the answer to the
    /// downstream.
    pub fn on_response(&mut self, response: ShareResponse) -> (reply: ShareReply)
        requires
            old(self).stage() is Submitting,
        ensures
            final(self).id() == old(self).id(),
            final(self).stage() == DownstreamStage::Mining,
            reply == upstream::shares::reply_of(old(self).stage()->Submitting_0, response),
    {
        let stage = self.stage;
        self.stage = DownstreamStage::Mining;
        match stage {
            DownstreamStage::Submitting(share) => reply_to(&share, response),
            _ => vstd::pervasive::unreached(),
        }
    }
}

/// A source of numbers that are used once.
pub struct Ids {
    last: u64,
}

impl View for Ids {
    type V = u64;

    /// The number that comes next.
    closed spec fn view(&self) -> u64 {
        self.last
    }
}

impl Ids {
    /// A source that starts at 0.
    pub fn new() -> (ids: Self)
        ensures
            ids@ == 0,
    {
        Ids { last: 0 }
    }

    /// The next number, one more than the one before. The largest number of all is never given.
    pub fn next(&mut self) -> (id: u64)
        requires
            old(self)@ < u64::MAX,
        ensures
            id == old(self)@,
            final(self)@ == old(self)@ + 1,
    {
        self.last = self.last + 1;
        self.last - 1
    }
}

/// A downstream whose first frame sets up a connection for mining with standard jobs, and whose
/// second one asks for a standard channel, is answered and gets the channel that it asked for: with
/// the request id and the hash rate that it named, whatever they are, for headers only, and under
/// the id that the proxy gave to it. From then on it mines.
pub proof fn law_from_the_first_frame_to_the_channel(
    id: u32,
    first: &mut Downstream,
    setup_type: u8,
    setup_payload: Vec<u8>,
    answered: Option<StartAction>,
    second: &mut Downstream,
    open_type: u8,
    open_payload: Vec<u8>,
    opened: Option<StartAction>,
    flags: u32,
    request_id: u32,
    hash_rate: u32,
)
    requires
        call_ensures(Downstream::new, (id,), *old(first)),
        call_ensures(Downstream::start, (first, setup_type, setup_payload), answered),
        *old(second) == *final(first),
        call_ensures(Downstream::start, (second, open_type, open_payload), opened),
        crate::messages::common_message(setup_type, setup_payload@) == Some(
            CommonMessage::SetupConnection { protocol: 0, flags },
        ),
        flags % 2 == 1,
        crate::messages::mining_message(open_type, open_payload@) == Some(
            MiningMessage::OpenStandardMiningChannel { request_id, nominal_hash_rate: hash_rate },
        ),
    ensures
        answered == Some(
            StartAction::Answer(SetupConnectionSuccess { used_version: 2, flags: 6 }),
        ),
        opened == Some(
            StartAction::Open(
                OpenChannelReq {
                    request_id,
                    downstream_hash_rate: hash_rate,
                    is_header_only: true,
                    id,
                },
            ),
        ),
        final(second).stage() == DownstreamStage::Mining,
{
}

/// A downstream is dropped exactly by a frame that it should not have sent: one that sets up no
/// connection for mining with standard jobs at first, and then one that asks for no standard
/// channel.
pub proof fn law_who_is_dropped_at_the_start(
    downstream: &mut Downstream,
    message_type: u8,
    payload: Vec<u8>,
    action: Option<StartAction>,
)
    requires
        old(downstream).stage() == DownstreamStage::Setup || old(downstream).stage()
            == DownstreamStage::Open,
        call_ensures(Downstream::start, (downstream, message_type, payload), action),
    ensures
        action is None <==> final(downstream).stage() == DownstreamStage::Dropped,
        old(downstream).stage() == DownstreamStage::Setup ==> (action is Some <==> (
        crate::messages::common_message(message_type, payload@) matches Some(
            CommonMessage::SetupConnection { protocol, flags },
        ) && protocol == 0 && flags % 2 == 1)),
        old(downstream).stage() == DownstreamStage::Open ==> (action is Some <==> (
        crate::messages::mining_message(message_type, payload@) matches Some(message)
            && message is OpenStandardMiningChannel)),
        final(downstream).id() == old(downstream).id(),
{
}

/// A share is handed to the upstream as the downstream sent it, and answered for its own channel and
/// sequence number, or with the very error that it met. Then the downstream goes on mining. One that
/// sends anything else than shares is dropped.
pub proof fn law_share_and_its_answer(
    downstream: &mut Downstream,
    message_type: u8,
    payload: Vec<u8>,
    handed: Option<SubmitSharesStandard>,
    answering: &mut Downstream,
    response: ShareResponse,
    reply: ShareReply,
    share: SubmitSharesStandard,
)
    requires
        call_ensures(Downstream::down_to_up, (downstream, message_type, payload), handed),
        *old(answering) == *final(downstream),
        call_ensures(Downstream::on_response, (answering, response), reply),
    ensures
        handed == Some(share) <==> crate::messages::mining_message(message_type, payload@) == Some(
            MiningMessage::SubmitSharesStandard(share),
        ),
        handed is None <==> final(downstream).stage() == DownstreamStage::Dropped,
        handed is Some ==> final(answering).stage() == DownstreamStage::Mining,
        final(answering).id() == old(downstream).id(),
        handed == Some(share) ==> match response {
            ShareResponse::Error(error) => reply == ShareReply::Error(error),
            ShareResponse::Accepted => reply matches ShareReply::Success(success) && {
                &&& success.channel_id == share.channel_id
                &&& success.last_sequence_number == share.sequence_number
                &&& success.new_submits_accepted_count == 1
                &&& success.new_shares_sum == 1
            },
        },
{
}

/// Two downstreams whose handshakes are completed one after the other get ids that follow on each
/// other. A handshake that fails in between costs no id, and a downstream without a handshake gets
/// none.
pub proof fn law_ids_follow_on_each_other(
    first: &mut Listener,
    first_id: Option<u32>,
    between: &mut Listener,
    failure: Handshake,
    no_id: Option<u32>,
    second: &mut Listener,
    second_id: Option<u32>,
)
    requires
        call_ensures(Listener::new, (), *old(first)),
        call_ensures(Listener::on_handshake, (first, Handshake::Completed), first_id),
        *old(between) == *final(first),
        failure != Handshake::Completed,
        call_ensures(Listener::on_handshake, (between, failure), no_id),
        *old(second) == *final(between),
        call_ensures(Listener::on_handshake, (second, Handshake::Completed), second_id),
    ensures
        first_id == Some(1u32),
        no_id is None,
        second_id == Some(2u32),
{
}

/// From whichever state, the next two ids that a listener hands out differ by one, and so do two
/// numbers of a source.
pub proof fn law_no_id_twice(
    first: &mut Listener,
    first_id: Option<u32>,
    second: &mut Listener,
    second_id: Option<u32>,
    numbers: &mut Ids,
    number: u64,
    more: &mut Ids,
    next_number: u64,
)
    requires
        call_ensures(Listener::on_handshake, (first, Handshake::Completed), first_id),
        *old(second) == *final(first),
        call_ensures(Listener::on_handshake, (second, Handshake::Completed), second_id),
        call_ensures(Ids::next, (numbers,), number),
        *old(more) == *final(numbers),
        call_ensures(Ids::next, (more,), next_number),
    ensures
        first_id matches Some(a) && (second_id matches Some(b) && b == a + 1),
        next_number == number + 1,
{
}

/// Connections from private addresses are dropped, and no others.
pub proof fn law_private_addresses_are_dropped(
    listener: Listener,
    a: u8,
    b: u8,
    c: u8,
    d: u8,
    v6: u128,
    v4_admitted: bool,
    v6_admitted: bool,
)
    requires
        call_ensures(Listener::admits, (&listener, &IpAddr::V4(a, b, c, d)), v4_admitted),
        call_ensures(Listener::admits, (&listener, &IpAddr::V6(v6)), v6_admitted),
    ensures
        v4_admitted <==> !(a == 10 || (a == 172 && 16 <= b <= 31) || (a == 192 && b == 168)),
        v6_admitted,
{
}

/// A message that asks for a standard channel is taken for the request that it is, with its own
/// request id and hash rate, whatever they are, and the id that the channel is to have. No other
/// message is taken for one.
pub proof fn law_accepted_request(message: MiningMessage, id: u32, request: Option<OpenChannelReq>)
    requires
        call_ensures(Downstream::accept_open, (message, id), request),
    ensures
        request is Some <==> message is OpenStandardMiningChannel,
        request matches Some(r) ==> {
            &&& message == (MiningMessage::OpenStandardMiningChannel {
                request_id: r.request_id,
                nominal_hash_rate: r.downstream_hash_rate,
            })
            &&& r.is_header_only
            &&& r.id == id
        },
{
}

/// A connection is set up for mining with standard jobs, for nothing else, and always in the same way.
/// A share is taken for the very one that it is.
pub proof fn law_accepted_setup_and_share(
    message: CommonMessage,
    answer: Option<SetupConnectionSuccess>,
    mining: MiningMessage,
    accepted: Option<SubmitSharesStandard>,
    share: SubmitSharesStandard,
)
    requires
        call_ensures(Downstream::accept_setup, (message,), answer),
        call_ensures(Downstream::accept_share, (mining,), accepted),
    ensures
        answer is Some <==> (message matches CommonMessage::SetupConnection { protocol, flags }
            && protocol == 0 && flags % 2 == 1),
        answer matches Some(a) ==> a.used_version == 2 && a.flags == 6,
        accepted == Some(share) <==> mining == MiningMessage::SubmitSharesStandard(share),
{
}

/// As long as the listener says that there are ids left, the next downstream gets one, and the stage
/// of a downstream is the one that it is in.
pub proof fn law_there_are_ids(
    listener: &mut Listener,
    left: bool,
    id: Option<u32>,
    downstream: Downstream,
    stage: DownstreamStage,
)
    requires
        call_ensures(Listener::has_ids, (&*old(listener),), left),
        call_ensures(Listener::on_handshake, (listener, Handshake::Completed), id),
        call_ensures(Downstream::current_stage, (&downstream,), stage),
    ensures
        left <==> old(listener)@ < 0xffff_ffff,
        id == Some(old(listener)@),
        stage == downstream.stage(),
{
}

} // verus!
