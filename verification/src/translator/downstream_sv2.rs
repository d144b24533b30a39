//! A session with one SV2 downstream: which of the translator's channels it holds, and how each
//! of its messages is answered.
//!
//! The session decides and the caller acts: it receives the messages, asks the bridge, sends the
//! replies, and reports back what came of it. A hash rate is carried as the bits of the number on
//! the wire; nothing here computes with it.
use std::collections::HashSet;
use vstd::prelude::*;

use crate::messages::{OpenMiningChannelError, unknown_user};

verus! {

/// The request of a downstream for an extended channel.
#[derive(Clone, Copy, Debug, PartialEq, Eq, Structural)]
pub struct OpenExtendedMiningChannel {
    pub request_id: u32,
    /// The bits of the nominal hash rate.
    pub nominal_hash_rate: u32,
    pub min_extranonce_size: u16,
}

/// What a downstream sent. The share of a `SubmitSharesExtended` is passed on unread.
pub enum DownstreamMessage<Sh> {
    OpenExtendedMiningChannel(OpenExtendedMiningChannel),
    SubmitSharesExtended(Sh),
    SetCustomMiningJob { channel_id: u32, request_id: u32 },
    CloseChannel { channel_id: u32 },
    Other,
}

/// The refusal of a custom mining job.
pub struct SetCustomMiningJobError {
    pub channel_id: u32,
    pub request_id: u32,
    pub error_code: String,
}

/// What to do about a message.
pub enum Action<Sh> {
    /// Ask the bridge for a channel, and hand its answer to [`Session::on_opened`].
    Open(OpenExtendedMiningChannel),
    /// Hand the share to the bridge, and its answer to [`Session::on_submitted`].
    Submit(Sh),
    /// Send the refusal; it does not matter whether it arrives.
    Refuse(SetCustomMiningJobError),
    /// Take the downstream off the channel; it does not matter whether the bridge can be locked.
    Unregister(u32),
    /// Nothing.
    Ignore,
}

/// What the bridge said to a request for a channel.
pub enum OpenAnswer<R> {
    /// The responses, and the channel that was opened, if one was.
    Answered { responses: Vec<R>, channel_id: Option<u32> },
    /// The bridge failed on the request.
    Failed,
    /// The lock of the bridge is poisoned.
    Poisoned,
}

/// What to do about the bridge's answer to a request for a channel.
pub enum OpenReply<R> {
    /// Register the downstream for the channel, if there is one, and report to
    /// [`Session::on_registered`]; then send the responses in order, each of which has to arrive.
    Respond { channel_id: Option<u32>, responses: Vec<R> },
    /// Send the refusal; it does not matter whether it arrives.
    Refuse(OpenMiningChannelError),
}

/// Whether a message has to arrive for the session to go on.
#[derive(Clone, Copy, Debug, PartialEq, Eq, Structural)]
pub enum Delivery {
    Required,
    BestEffort,
}

/// What ends a session before the downstream hangs up.
#[derive(Clone, Copy, Debug, PartialEq, Eq, Structural)]
pub enum SessionError {
    AsyncChannelError,
    BridgeMutexPoisoned,
}

/// Whether the session goes on after a message was sent, or failed to be.
pub open spec fn sent_outcome(delivery: Delivery, sent: bool) -> Result<(), SessionError> {
    if delivery == Delivery::Required && !sent {
        Err(SessionError::AsyncChannelError)
    } else {
        Ok(())
    }
}

/// Whether what is sent about the bridge's answer to a request for a channel has to arrive: the
/// responses do, and a refusal does not.
pub open spec fn open_delivery<R>(reply: OpenReply<R>) -> Delivery {
    match reply {
        OpenReply::Respond { .. } => Delivery::Required,
        OpenReply::Refuse(_) => Delivery::BestEffort,
    }
}

impl<R> OpenReply<R> {
    /// Whether what is sent has to arrive.
    pub fn delivery(&self) -> (delivery: Delivery)
        ensures
            delivery == open_delivery(*self),
    {
        match self {
            OpenReply::Respond { .. } => Delivery::Required,
            OpenReply::Refuse(_) => Delivery::BestEffort,
        }
    }
}

/// Whether what is sent at once about a message has to arrive: only a refusal is sent at once, and
/// it does not.
pub open spec fn action_delivery<Sh>(action: Action<Sh>) -> Option<Delivery> {
    match action {
        Action::Refuse(_) => Some(Delivery::BestEffort),
        _ => None,
    }
}

impl<Sh> Action<Sh> {
    /// Whether what is sent at once has to arrive, if anything is sent.
    pub fn delivery(&self) -> (delivery: Option<Delivery>)
        ensures
            delivery == action_delivery(*self),
    {
        match self {
            Action::Refuse(_) => Some(Delivery::BestEffort),
            _ => None,
        }
    }
}

/// Whether the response to a share has to arrive: it does, if there is one.
pub open spec fn submit_delivery<R>(reply: Option<R>) -> Option<Delivery> {
    match reply {
        Some(_) => Some(Delivery::Required),
        None => None,
    }
}

/// Whether the response to a share has to arrive, if there is one.
pub fn delivery_of_submit<R>(reply: &Option<R>) -> (delivery: Option<Delivery>)
    ensures
        delivery == submit_delivery(*reply),
{
    match reply {
        Some(_) => Some(Delivery::Required),
        None => None,
    }
}

/// Something that was sent to the downstream, or failed to be, with what it was sent for.
pub ghost enum Sending<Sh, R> {
    ForOpen { reply: OpenReply<R>, sent: bool },
    ForAction { action: Action<Sh>, sent: bool },
    ForSubmit { reply: Option<R>, sent: bool },
}

/// Whether the session goes on after one sending.
pub open spec fn after_sending<Sh, R>(sending: Sending<Sh, R>) -> Result<(), SessionError> {
    match sending {
        Sending::ForOpen { reply, sent } => sent_outcome(open_delivery(reply), sent),
        Sending::ForAction { action, sent } => match action_delivery(action) {
            Some(delivery) => sent_outcome(delivery, sent),
            None => Ok(()),
        },
        Sending::ForSubmit { reply, sent } => match submit_delivery(reply) {
            Some(delivery) => sent_outcome(delivery, sent),
            None => Ok(()),
        },
    }
}

/// Whether the session goes on after a run of sendings: the first that ends it decides.
pub open spec fn after_sendings<Sh, R>(sendings: Seq<Sending<Sh, R>>) -> Result<(), SessionError>
    decreases sendings.len(),
{
    if sendings.len() == 0 {
        Ok(())
    } else {
        match after_sendings(sendings.drop_last()) {
            Ok(_) => after_sending(sendings.last()),
            Err(e) => Err(e),
        }
    }
}

/// Whether a response of the bridge was lost.
pub open spec fn is_lost_response<Sh, R>(sending: Sending<Sh, R>) -> bool {
    match sending {
        Sending::ForOpen { reply, sent } => reply is Respond && !sent,
        Sending::ForAction { .. } => false,
        Sending::ForSubmit { reply, sent } => reply is Some && !sent,
    }
}

/// As far as sending goes, a session ends exactly if a response of the bridge is lost, to a request
/// for a channel or to a share. A refusal that is lost does not end it.
pub proof fn law_lost_responses_end_a_session<Sh, R>(sendings: Seq<Sending<Sh, R>>)
    ensures
        after_sendings(sendings) == (if exists|i: int|
            0 <= i < sendings.len() && is_lost_response(#[trigger] sendings[i]) {
            Err(SessionError::AsyncChannelError)
        } else {
            Ok(())
        }),
    decreases sendings.len(),
{
    if sendings.len() > 0 {
        let before = sendings.drop_last();
        let last = sendings.len() - 1;
        law_lost_responses_end_a_session(before);
        if exists|i: int| 0 <= i < before.len() && is_lost_response(#[trigger] before[i]) {
            let i = choose|i: int| 0 <= i < before.len() && is_lost_response(#[trigger] before[i]);
            assert(is_lost_response(sendings[i]));
        }
        if exists|i: int| 0 <= i < sendings.len() && is_lost_response(#[trigger] sendings[i]) {
            let i = choose|i: int|
                0 <= i < sendings.len() && is_lost_response(#[trigger] sendings[i]);
            if i < last {
                assert(is_lost_response(before[i]));
            }
        }
        assert(is_lost_response(sendings[last]) == (after_sending(sendings[last]) is Err));
    }
}

/// The code of every refusal of a custom mining job.
pub open spec fn invalid_mining_job_token() -> Seq<char> {
    "invalid-mining-job-token"@
}

/// The extranonce size that is asked of the bridge: the configured one where the downstream left
/// the choice open.
pub open spec fn effective_min(requested: u16, fallback: u16) -> u16 {
    if requested == 0 {
        fallback
    } else {
        requested
    }
}

/// Something that happened to the channels of a session.
pub ghost enum ChannelEvent {
    Opened(u32),
    Closed(u32),
}

/// The channels of a session after one event.
pub open spec fn after_event(channels: Set<u32>, event: ChannelEvent) -> Set<u32> {
    match event {
        ChannelEvent::Opened(id) => channels.insert(id),
        ChannelEvent::Closed(id) => channels.remove(id),
    }
}

/// The channels of a session that started without any, after a run of events.
pub open spec fn after_events(events: Seq<ChannelEvent>) -> Set<u32>
    decreases events.len(),
{
    if events.len() == 0 {
        Set::empty()
    } else {
        after_event(after_events(events.drop_last()), events.last())
    }
}

/// A channel is held exactly if it was opened and not closed since.
pub proof fn law_held_channels(events: Seq<ChannelEvent>, id: u32)
    ensures
        after_events(events).contains(id) <==> exists|i: int|
            0 <= i < events.len() && #[trigger] events[i] == ChannelEvent::Opened(id) && forall|
                j: int,
            |
                i < j < events.len() ==> #[trigger] events[j] != ChannelEvent::Closed(id),
    decreases events.len(),
{
    if events.len() > 0 {
        let before = events.drop_last();
        let n = before.len() as int;
        law_held_channels(before, id);
        if after_events(events).contains(id) {
            if events[n] == ChannelEvent::Opened(id) {
                assert(events[n] == ChannelEvent::Opened(id));
            } else {
                let i = choose|i: int|
                    0 <= i < before.len() && #[trigger] before[i] == ChannelEvent::Opened(id)
                        && forall|j: int|
                        i < j < before.len() ==> #[trigger] before[j] != ChannelEvent::Closed(id);
                assert(events[i] == ChannelEvent::Opened(id));
                assert forall|j: int| i < j < events.len() implies #[trigger] events[j]
                    != ChannelEvent::Closed(id) by {
                    if j < n {
                        assert(before[j] == events[j]);
                    }
                }
            }
        }
        if exists|i: int|
            0 <= i < events.len() && #[trigger] events[i] == ChannelEvent::Opened(id) && forall|
                j: int,
            |
                i < j < events.len() ==> #[trigger] events[j] != ChannelEvent::Closed(id) {
            let i = choose|i: int|
                0 <= i < events.len() && #[trigger] events[i] == ChannelEvent::Opened(id) && forall|
                    j: int,
                |
                    i < j < events.len() ==> #[trigger] events[j] != ChannelEvent::Closed(id);
            if i < n {
                assert(before[i] == ChannelEvent::Opened(id));
                assert forall|j: int| i < j < before.len() implies #[trigger] before[j]
                    != ChannelEvent::Closed(id) by {
                    assert(before[j] == events[j]);
                }
                assert(events[n] != ChannelEvent::Closed(id));
            }
        }
    }
}

/// The channels that the downstream was put on in a run of events, in order. One that it held
/// already does not count.
pub open spec fn taken_up(events: Seq<ChannelEvent>) -> Seq<u32>
    decreases events.len(),
{
    if events.len() == 0 {
        Seq::empty()
    } else {
        let before = events.drop_last();
        match events.last() {
            ChannelEvent::Opened(id) => if after_events(before).contains(id) {
                taken_up(before)
            } else {
                taken_up(before).push(id)
            },
            ChannelEvent::Closed(_) => taken_up(before),
        }
    }
}

/// The channels that the downstream was taken off in a run of events, in order. One that it did not
/// hold does not count.
pub open spec fn given_up(events: Seq<ChannelEvent>) -> Seq<u32>
    decreases events.len(),
{
    if events.len() == 0 {
        Seq::empty()
    } else {
        let before = events.drop_last();
        match events.last() {
            ChannelEvent::Opened(_) => given_up(before),
            ChannelEvent::Closed(id) => if after_events(before).contains(id) {
                given_up(before).push(id)
            } else {
                given_up(before)
            },
        }
    }
}

/// Each time that a channel was taken up, it was given up since or is held still.
proof fn lemma_balance(events: Seq<ChannelEvent>, id: u32)
    ensures
        taken_up(events).to_multiset().count(id) == given_up(events).to_multiset().count(id) + (
        if after_events(events).contains(id) {
            1nat
        } else {
            0nat
        }),
    decreases events.len(),
{
    broadcast use vstd::seq_lib::group_to_multiset_ensures;

    if events.len() > 0 {
        lemma_balance(events.drop_last(), id);
    }
}

/// Over a whole session of a downstream that hangs up at the end, the channels that it is taken off
/// are exactly those that it was put on, each as often: those that it closed, and then those that
/// it still holds, once each. In particular a channel that it was put on once is one that it is
/// taken off once, and no other channel is touched.
pub proof fn law_unregistered_is_what_was_registered(events: Seq<ChannelEvent>, left: Seq<u32>)
    requires
        left.no_duplicates(),
        left.to_set() == after_events(events),
    ensures
        (given_up(events) + left).to_multiset() == taken_up(events).to_multiset(),
{
    broadcast use vstd::seq_lib::group_to_multiset_ensures;

    vstd::seq_lib::lemma_multiset_commutative(given_up(events), left);
    assert forall|id: u32|
        #![trigger taken_up(events).to_multiset().count(id)]
        (given_up(events) + left).to_multiset().count(id) == taken_up(
            events,
        ).to_multiset().count(id) by {
        lemma_balance(events, id);
        left.lemma_multiset_has_no_duplicates();
        assert(left.to_set().contains(id) == left.contains(id));
        assert(left.to_multiset().contains(id) == left.contains(id));
    }
    assert((given_up(events) + left).to_multiset() =~= taken_up(events).to_multiset());
}

/// A channel is one that the downstream was put on exactly if it was ever opened.
pub proof fn law_registered_is_what_was_opened(events: Seq<ChannelEvent>, id: u32)
    ensures
        taken_up(events).contains(id) <==> events.contains(ChannelEvent::Opened(id)),
    decreases events.len(),
{
    if events.len() > 0 {
        let before = events.drop_last();
        let n = before.len() as int;
        law_registered_is_what_was_opened(before, id);
        law_held_channels(before, id);
        if events.contains(ChannelEvent::Opened(id)) {
            let i = choose|i: int|
                0 <= i < events.len() && events[i] == ChannelEvent::Opened(id);
            if i < n {
                assert(before[i] == ChannelEvent::Opened(id));
                assert(taken_up(before).contains(id));
                let j = choose|j: int|
                    0 <= j < taken_up(before).len() && taken_up(before)[j] == id;
                assert(taken_up(events)[j] == id);
            } else if !after_events(before).contains(id) {
                assert(taken_up(events)[taken_up(before).len() as int] == id);
            } else {
                let k = choose|k: int|
                    0 <= k < before.len() && before[k] == ChannelEvent::Opened(id);
                assert(before[k] == ChannelEvent::Opened(id));
                let j = choose|j: int|
                    0 <= j < taken_up(before).len() && taken_up(before)[j] == id;
                assert(taken_up(events)[j] == id);
            }
        }
        if taken_up(events).contains(id) {
            let j = choose|j: int| 0 <= j < taken_up(events).len() && taken_up(events)[j] == id;
            if j < taken_up(before).len() {
                assert(taken_up(before)[j] == id);
                let k = choose|k: int|
                    0 <= k < before.len() && before[k] == ChannelEvent::Opened(id);
                assert(events[k] == ChannelEvent::Opened(id));
            } else {
                assert(events[n] == ChannelEvent::Opened(id));
            }
        }
    }
}

/// A session with a downstream. It stands for the set of the channels that the downstream holds.
pub struct Session {
    channel_ids: HashSet<u32>,
}

impl View for Session {
    type V = Set<u32>;

    closed spec fn view(&self) -> Set<u32> {
        self.channel_ids@
    }
}

impl Session {
    /// A session without channels.
    pub fn new() -> (session: Self)
        ensures
            session@ == after_events(Seq::empty()),
    {
        Session { channel_ids: HashSet::new() }
    }

    /// Decides what a message asks for. `fallback` is the extranonce size that stands in where a
    /// request for a channel names none.
    pub fn on_message<Sh>(&mut self, message: DownstreamMessage<Sh>, fallback: u16) -> (action:
        Action<Sh>)
        ensures
            match message {
                DownstreamMessage::OpenExtendedMiningChannel(open) => {
                    &&& final(self)@ == old(self)@
                    &&& action == Action::<Sh>::Open(
                        OpenExtendedMiningChannel {
                            request_id: open.request_id,
                            nominal_hash_rate: open.nominal_hash_rate,
                            min_extranonce_size: effective_min(open.min_extranonce_size, fallback),
                        },
                    )
                },
                DownstreamMessage::SubmitSharesExtended(share) => {
                    &&& final(self)@ == old(self)@
                    &&& action == Action::Submit(share)
                },
                DownstreamMessage::SetCustomMiningJob { channel_id, request_id } => {
                    &&& final(self)@ == old(self)@
                    &&& action matches Action::Refuse(refusal)
                    &&& refusal.channel_id == channel_id
                    &&& refusal.request_id == request_id
                    &&& refusal.error_code@ == invalid_mining_job_token()
                },
                DownstreamMessage::CloseChannel { channel_id } => {
                    &&& final(self)@ == after_event(old(self)@, ChannelEvent::Closed(channel_id))
                    &&& action == (if old(self)@.contains(channel_id) {
                        Action::<Sh>::Unregister(channel_id)
                    } else {
                        Action::<Sh>::Ignore
                    })
                },
                DownstreamMessage::Other => {
                    &&& final(self)@ == old(self)@
                    &&& action == Action::<Sh>::Ignore
                },
            },
    {
        match message {
            DownstreamMessage::OpenExtendedMiningChannel(open) => {
                let min_extranonce_size: u16 = if open.min_extranonce_size == 0 {
                    fallback
                } else {
                    open.min_extranonce_size
                };
                Action::Open(
                    OpenExtendedMiningChannel {
                        request_id: open.request_id,
                        nominal_hash_rate: open.nominal_hash_rate,
                        min_extranonce_size,
                    },
                )
            },
            DownstreamMessage::SubmitSharesExtended(share) => Action::Submit(share),
            DownstreamMessage::SetCustomMiningJob { channel_id, request_id } => Action::Refuse(
                SetCustomMiningJobError {
                    channel_id,
                    request_id,
                    error_code: "invalid-mining-job-token".to_string(),
                },
            ),
            DownstreamMessage::CloseChannel { channel_id } => {
                let held = self.channel_ids.remove(&channel_id);
                proof {
                    assert(self@ =~= old(self)@.remove(channel_id));
                }
                if held {
                    Action::Unregister(channel_id)
                } else {
                    Action::Ignore
                }
            },
            DownstreamMessage::Other => Action::Ignore,
        }
    }

    /// Takes the bridge's answer to the request for a channel with the given id.
    pub fn on_opened<R>(&self, request_id: u32, answer: OpenAnswer<R>) -> (reply: Result<
        OpenReply<R>,
        SessionError,
    >)
        ensures
            match answer {
                OpenAnswer::Answered { responses, channel_id } => reply == Ok::<_, SessionError>(
                    (OpenReply::Respond { channel_id, responses }),
                ),
                OpenAnswer::Failed => {
                    &&& reply matches Ok(OpenReply::Refuse(refusal))
                    &&& refusal.request_id == request_id
                    &&& refusal.error_code@ == "unknown-user"@
                },
                OpenAnswer::Poisoned => reply == Err::<OpenReply<R>, _>(
                    SessionError::BridgeMutexPoisoned,
                ),
            },
    {
        match answer {
            OpenAnswer::Answered { responses, channel_id } => Ok(
                OpenReply::Respond { channel_id, responses },
            ),
            OpenAnswer::Failed => Ok(OpenReply::Refuse(unknown_user(request_id))),
            OpenAnswer::Poisoned => Err(SessionError::BridgeMutexPoisoned),
        }
    }

    /// Takes down the channel for which the downstream was registered, unless the lock of the
    /// bridge was poisoned.
    pub fn on_registered(&mut self, channel_id: u32, locked: bool) -> (outcome: Result<
        (),
        SessionError,
    >)
        ensures
            outcome == (if locked {
                Ok(())
            } else {
                Err(SessionError::BridgeMutexPoisoned)
            }),
            final(self)@ == (if locked {
                after_event(old(self)@, ChannelEvent::Opened(channel_id))
            } else {
                old(self)@
            }),
    {
        if !locked {
            return Err(SessionError::BridgeMutexPoisoned);
        }
        let _ = self.channel_ids.insert(channel_id);
        proof {
            assert(self@ =~= old(self)@.insert(channel_id));
        }
        Ok(())
    }

    /// Takes the bridge's answer to a share: what to send, if anything, which then has to arrive.
    /// A share that the bridge failed on goes unanswered.
    pub fn on_submitted<R>(&self, answer: Result<Option<R>, ()>) -> (reply: Option<R>)
        ensures
            reply == match answer {
                Ok(response) => response,
                Err(_) => None,
            },
    {
        match answer {
            Ok(response) => response,
            Err(_) => None,
        }
    }

    /// Whether the session goes on after a message was sent, or failed to be.
    pub fn on_sent(&self, delivery: Delivery, sent: bool) -> (outcome: Result<(), SessionError>)
        ensures
            outcome == sent_outcome(delivery, sent),
    {
        match delivery {
            Delivery::Required => if sent {
                Ok(())
            } else {
                Err(SessionError::AsyncChannelError)
            },
            Delivery::BestEffort => Ok(()),
        }
    }

    /// Ends the session of a downstream that hung up: the channels that it still holds, each of
    /// them once, in no particular order. All of them are to be unregistered.
    pub fn close(self) -> (channel_ids: Vec<u32>)
        ensures
            channel_ids@.no_duplicates(),
            channel_ids@.to_set() == self@,
    {
        let mut ids: Vec<u32> = Vec::new();
        for id in iter: self.channel_ids.iter()
            invariant
                ids@.len() == iter.index(),
                iter.seq().unref().to_set() == self.channel_ids@,
                iter.seq().no_duplicates(),
                forall|i: int| 0 <= i < ids@.len() ==> ids@[i] == *iter.seq()[i],
                iter.index() == iter.seq().len() ==> ids@ =~= iter.seq().unref(),
        {
            ids.push(*id);
        }
        ids
    }
}

/// A downstream that asks for some size of the extranonce is given that size, whatever it is, and one
/// that leaves the choice open is given the configured one.
pub proof fn law_size_of_the_extranonce(requested: u16, fallback: u16)
    ensures
        requested != 0 ==> effective_min(requested, fallback) == requested,
        effective_min(0, fallback) == fallback,
{
}

/// A session ends with a sending exactly if that failed and had to arrive. Responses of the bridge
/// have to arrive, to a request for a channel and to a share. Refusals do not.
pub proof fn law_what_has_to_arrive<Sh, R>(
    delivery: Delivery,
    sent: bool,
    opened: OpenReply<R>,
    action: Action<Sh>,
    submitted: Option<R>,
)
    ensures
        sent_outcome(delivery, sent) is Err <==> !sent && delivery == Delivery::Required,
        sent_outcome(delivery, sent) matches Err(e) ==> e == SessionError::AsyncChannelError,
        open_delivery(opened) == Delivery::Required <==> opened is Respond,
        action_delivery(action) == Some(Delivery::BestEffort) <==> action is Refuse,
        action_delivery(action) is Some <==> action is Refuse,
        submit_delivery(submitted) == Some(Delivery::Required) <==> submitted is Some,
        submit_delivery(submitted) is None <==> submitted is None,
{
}

/// An opened channel is held and a closed one is not, and neither event touches another channel.
pub proof fn law_events_touch_their_own_channel(channels: Set<u32>, id: u32, other: u32)
    ensures
        after_event(channels, ChannelEvent::Opened(id)).contains(id),
        !after_event(channels, ChannelEvent::Closed(id)).contains(id),
        other != id ==> after_event(channels, ChannelEvent::Opened(id)).contains(other)
            == channels.contains(other),
        other != id ==> after_event(channels, ChannelEvent::Closed(id)).contains(other)
            == channels.contains(other),
{
}

/// The code of every refusal of a custom mining job is the one of the protocol for a token that is
/// not known.
pub proof fn law_code_of_a_refused_job()
    ensures
        invalid_mining_job_token() == "invalid-mining-job-token"@,
{
}

/// A request for a channel is handed to the bridge with the id and the hash rate that the downstream
/// named, whatever they are, and with the size of the extranonce that it named, or the configured
/// one where it named none. The refusal of a request carries its id, and the answers of the bridge
/// are sent as they are.
pub proof fn law_request_for_a_channel<Sh, R>(
    session: &mut Session,
    open: OpenExtendedMiningChannel,
    fallback: u16,
    action: Action<Sh>,
    answer: OpenAnswer<R>,
    reply: Result<OpenReply<R>, SessionError>,
)
    requires
        call_ensures(
            Session::on_message::<Sh>,
            (session, DownstreamMessage::OpenExtendedMiningChannel(open), fallback),
            action,
        ),
        call_ensures(
            Session::on_opened::<R>,
            (&*final(session), open.request_id, answer),
            reply,
        ),
    ensures
        final(session)@ == old(session)@,
        action matches Action::Open(asked) && {
            &&& asked.request_id == open.request_id
            &&& asked.nominal_hash_rate == open.nominal_hash_rate
            &&& open.min_extranonce_size != 0 ==> asked.min_extranonce_size
                == open.min_extranonce_size
            &&& open.min_extranonce_size == 0 ==> asked.min_extranonce_size == fallback
        },
        match answer {
            OpenAnswer::Answered { responses, channel_id } => {
                reply matches Ok(OpenReply::Respond { channel_id: registered, responses: sent })
                    && registered == channel_id && sent == responses
            },
            OpenAnswer::Failed => reply matches Ok(OpenReply::Refuse(refusal))
                && refusal.request_id == open.request_id && refusal.error_code@ == "unknown-user"@,
            OpenAnswer::Poisoned => reply matches Err(e) && e == SessionError::BridgeMutexPoisoned,
        },
{
}

/// A channel that a downstream was registered for, and closes, is the one that it is taken off, and
/// is taken off once. Its other channels stay.
pub proof fn law_closed_channel_is_given_up<Sh>(
    opening: &mut Session,
    channel_id: u32,
    outcome: Result<(), SessionError>,
    closing: &mut Session,
    fallback: u16,
    closed: Action<Sh>,
    repeating: &mut Session,
    repeated: Action<Sh>,
    other: u32,
)
    requires
        call_ensures(Session::on_registered, (opening, channel_id, true), outcome),
        *old(closing) == *final(opening),
        call_ensures(
            Session::on_message::<Sh>,
            (closing, DownstreamMessage::CloseChannel { channel_id }, fallback),
            closed,
        ),
        *old(repeating) == *final(closing),
        call_ensures(
            Session::on_message::<Sh>,
            (repeating, DownstreamMessage::CloseChannel { channel_id }, fallback),
            repeated,
        ),
    ensures
        outcome is Ok,
        closed == Action::<Sh>::Unregister(channel_id),
        repeated is Ignore,
        !final(repeating)@.contains(channel_id),
        other != channel_id ==> final(repeating)@.contains(other) == old(opening)@.contains(other),
{
}

/// A session ends with the channels that the downstream was registered for and did not close, each
/// once. Where the lock of the bridge was poisoned, it was not registered.
pub proof fn law_channels_at_the_end(
    session: &mut Session,
    channel_id: u32,
    locked: bool,
    outcome: Result<(), SessionError>,
    left: Vec<u32>,
    other: u32,
)
    requires
        call_ensures(Session::on_registered, (session, channel_id, locked), outcome),
        call_ensures(Session::close, (*final(session),), left),
    ensures
        outcome is Ok <==> locked,
        outcome matches Err(e) ==> e == SessionError::BridgeMutexPoisoned,
        left@.no_duplicates(),
        left@.contains(other) <==> (locked && other == channel_id) || old(session)@.contains(other),
{
    assert(left@.to_set().contains(other) == left@.contains(other));
}

/// A share is handed to the bridge as it is, a custom job is refused for its own channel and request,
/// and everything else is passed over. None of this changes which channels the downstream holds.
pub proof fn law_other_messages<Sh>(
    submitting: &mut Session,
    share: Sh,
    fallback: u16,
    submitted: Action<Sh>,
    declaring: &mut Session,
    channel_id: u32,
    request_id: u32,
    declared: Action<Sh>,
    saying: &mut Session,
    said: Action<Sh>,
)
    requires
        call_ensures(
            Session::on_message::<Sh>,
            (submitting, DownstreamMessage::SubmitSharesExtended(share), fallback),
            submitted,
        ),
        call_ensures(
            Session::on_message::<Sh>,
            (declaring, DownstreamMessage::SetCustomMiningJob { channel_id, request_id }, fallback),
            declared,
        ),
        call_ensures(
            Session::on_message::<Sh>,
            (saying, DownstreamMessage::Other, fallback),
            said,
        ),
    ensures
        submitted == Action::Submit(share),
        final(submitting)@ == old(submitting)@,
        declared matches Action::Refuse(refusal) && {
            &&& refusal.channel_id == channel_id
            &&& refusal.request_id == request_id
            &&& refusal.error_code@ == "invalid-mining-job-token"@
        },
        final(declaring)@ == old(declaring)@,
        said is Ignore,
        final(saying)@ == old(saying)@,
{
}

/// A response of the bridge that is lost ends the session, to a request for a channel as to a share,
/// and a refusal that is lost does not. A response to a share is sent as it is, and a share that the
/// bridge failed on is not answered.
pub proof fn law_when_sending_ends_a_session<Sh, R>(
    session: Session,
    reply: OpenReply<R>,
    reply_delivery: Delivery,
    reply_sent: bool,
    reply_outcome: Result<(), SessionError>,
    action: Action<Sh>,
    action_delivered: Option<Delivery>,
    answer: Result<Option<R>, ()>,
    response: Option<R>,
    response_delivery: Option<Delivery>,
    response_sent: bool,
    response_outcome: Result<(), SessionError>,
)
    requires
        call_ensures(OpenReply::<R>::delivery, (&reply,), reply_delivery),
        call_ensures(Session::on_sent, (&session, reply_delivery, reply_sent), reply_outcome),
        call_ensures(Action::<Sh>::delivery, (&action,), action_delivered),
        call_ensures(Session::on_submitted::<R>, (&session, answer), response),
        call_ensures(delivery_of_submit::<R>, (&response,), response_delivery),
        response_delivery is Some,
        call_ensures(
            Session::on_sent,
            (&session, response_delivery->0, response_sent),
            response_outcome,
        ),
    ensures
        reply_outcome is Err <==> reply is Respond && !reply_sent,
        reply_outcome matches Err(e) ==> e == SessionError::AsyncChannelError,
        action_delivered is Some <==> action is Refuse,
        action_delivered matches Some(delivery) ==> delivery == Delivery::BestEffort,
        answer == Ok::<_, ()>(response),
        response_outcome is Err <==> !response_sent,
        response_outcome matches Err(e) ==> e == SessionError::AsyncChannelError,
{
}

/// A share that the bridge failed on is not answered, and one that it answered is answered so.
pub proof fn law_answers_to_shares<R>(
    session: Session,
    answer: Result<Option<R>, ()>,
    response: Option<R>,
    delivery: Option<Delivery>,
)
    requires
        call_ensures(Session::on_submitted::<R>, (&session, answer), response),
        call_ensures(delivery_of_submit::<R>, (&response,), delivery),
    ensures
        answer matches Ok(given) ==> response == given,
        answer is Err ==> response is None,
        delivery is Some <==> response is Some,
        delivery matches Some(d) ==> d == Delivery::Required,
{
}

} // verus!
