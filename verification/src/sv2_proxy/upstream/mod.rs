//! The side of the proxy that faces the pool: one extended channel, shared by all downstreams.
//!
//! An [`Upstream`] decides what each message and event comes to; the caller receives, sends and
//! keeps the time. `S` is whatever reaches the pool or a downstream, `M` a message that is passed
//! on unread. Hash rates are carried as the bits of the numbers on the wire.
use roles_logic_sv2::channel_logic::channel_factory::ProxyExtendedChannelFactory;
use roles_logic_sv2::mining_sv2::{ExtendedExtranonce, Extranonce};
use std::collections::HashMap;
use std::ops::Range;
use vstd::prelude::*;

pub mod opening;
pub mod pending;
pub mod shares;

use shares::{submit_to_factory, OnNewShare, SubmitSharesStandard};

verus! {

/// The longest extranonce, in bytes.
pub const MAX_EXTRANONCE_LEN: usize = 32;

/// How many seconds pass between two messages that keep the channel open.
pub const KEEP_ALIVE_INTERVAL: u64 = 10;

/// A target that every hash meets.
pub open spec fn max_target() -> Seq<u8> {
    Seq::new(32, |i: int| 255u8)
}

/// The bytes of a target that every hash meets.
fn max_target_bytes() -> (target: Vec<u8>)
    ensures
        target@ == max_target(),
{
    let target: Vec<u8> = vec![255u8; 32];
    proof {
        assert(target@ =~= max_target());
    }
    target
}

/// The message that tells the pool of the hash rate behind its channel.
pub struct UpdateChannel {
    pub channel_id: u32,
    /// The bits of the hash rate.
    pub nominal_hash_rate: u32,
    pub maximum_target: Vec<u8>,
}

/// The message that asks the pool for a channel.
pub struct OpenExtendedMiningChannel {
    pub request_id: u32,
    pub user_identity: String,
    /// The bits of the hash rate.
    pub nominal_hash_rate: u32,
    pub max_target: Vec<u8>,
    pub min_extranonce_size: u16,
}

/// The pool's answer, by which the channel is open.
pub struct OpenExtendedMiningChannelSuccess {
    pub channel_id: u32,
    pub target: Vec<u8>,
    pub extranonce_size: u16,
    pub extranonce_prefix: Vec<u8>,
}

/// The message that a new block has been found to build on.
pub struct SetNewPrevHash {
    pub channel_id: u32,
    pub job_id: u32,
    pub prev_hash: [u8; 32],
    pub min_ntime: u32,
    pub nbits: u32,
}

/// A job for a standard channel.
pub struct NewMiningJob {
    pub channel_id: u32,
    pub job_id: u32,
    pub min_ntime: Option<u32>,
    pub version: u32,
    pub merkle_root: Vec<u8>,
}

/// A message that the factory made out of a job of the pool.
pub enum JobMessage<M> {
    NewMiningJob(NewMiningJob),
    Other(M),
}

/// A message for one of the downstreams, or something else that is none.
pub enum Relay<M> {
    ToRemote { downstream: u32, message: M },
    Other,
}

/// What a handler of the pool's messages asks for.
pub enum SendTo<M> {
    /// An answer to the pool.
    Respond(M),
    /// A `SetNewPrevHash` for every downstream.
    RelaySetNewPrevHash(M),
    /// Messages for single downstreams.
    Multiple(Vec<Relay<M>>),
    /// Nothing.
    Nothing,
    /// Anything else.
    Other,
}

/// Where the messages go that a handler asked for. Where one of them cannot be sent, the loop over
/// the pool's messages stops.
pub enum Route<M> {
    ToUpstream(M),
    /// The message goes to each of the recipients.
    Broadcast { recipients: Vec<u32>, message: M },
    /// Each message goes to its own downstream, in order.
    ToDownstreams(Vec<(u32, M)>),
    Nothing,
    /// The loop over the pool's messages stops.
    Stop,
}

/// The extranonce of `mining_sv2` that is shared out among downstreams.
#[verifier::external_type_specification]
#[verifier::external_body]
pub struct ExExtendedExtranonce(roles_logic_sv2::mining_sv2::ExtendedExtranonce);

/// The bytes that an [`ExtendedExtranonce`] holds.
pub uninterp spec fn extranonce_bytes(extranonce: ExtendedExtranonce) -> Seq<u8>;

/// The three ranges of the bytes of an [`ExtendedExtranonce`], each with its start and end: that
/// of the pool, that of the proxy and that of the downstream.
pub uninterp spec fn extranonce_ranges(extranonce: ExtendedExtranonce) -> Seq<(usize, usize)>;

/// The bytes of a prefix, filled up with zeros.
pub open spec fn zero_padded(prefix: Seq<u8>, len: nat) -> Seq<u8> {
    Seq::new(
        len,
        |i: int|
            if i < prefix.len() {
                prefix[i]
            } else {
                0u8
            },
    )
}

/// Calls `ExtendedExtranonce::from_upstream_extranonce` of `mining_sv2`, after turning the bytes
/// into its `Extranonce`: there is no result exactly if the last range ends behind the longest
/// extranonce, and otherwise it holds the prefix, filled up with zeros, and the three ranges as
/// they were given.
#[verifier::external_body]
fn from_upstream_extranonce(
    prefix: Vec<u8>,
    range_0: Range<usize>,
    range_1: Range<usize>,
    range_2: Range<usize>,
) -> (extranonce: Option<ExtendedExtranonce>)
    requires
        prefix@.len() <= MAX_EXTRANONCE_LEN,
        prefix@.len() <= range_2.end,
        range_0.start <= range_0.end <= range_1.start <= range_1.end <= range_2.start
            <= range_2.end,
    ensures
        match extranonce {
            Some(e) => {
                &&& range_2.end <= MAX_EXTRANONCE_LEN
                &&& extranonce_bytes(e) == zero_padded(prefix@, MAX_EXTRANONCE_LEN as nat)
                &&& extranonce_ranges(e) == seq![
                    (range_0.start, range_0.end),
                    (range_1.start, range_1.end),
                    (range_2.start, range_2.end),
                ]
            },
            None => range_2.end > MAX_EXTRANONCE_LEN,
        },
{
    let prefix = Extranonce::try_from(prefix).ok()?;
    ExtendedExtranonce::from_upstream_extranonce(prefix, range_0, range_1, range_2)
}

/// The block on which a factory builds at the moment: the job that it was announced with, its hash,
/// its earliest time and its difficulty bits.
pub uninterp spec fn factory_prev_hash(factory: ProxyExtendedChannelFactory) -> Option<
    (u32, Seq<u8>, u32, u32),
>;

/// The ids of the jobs that a factory was told of for a block to come, in the order in which it was
/// told of them.
pub uninterp spec fn factory_announced_jobs(factory: ProxyExtendedChannelFactory) -> Seq<u32>;

/// The job that is taken up with a block, out of those that were announced for one: the job of the
/// block if it was announced, and none if only others were. Where none was announced at all, the
/// job stays that was worked on before.
pub open spec fn job_taken_up(announced: Seq<u32>, valid: Option<u32>, job_id: u32) -> Option<u32> {
    if announced.contains(job_id) {
        Some(job_id)
    } else if announced.len() > 0 {
        None
    } else {
        valid
    }
}

/// Calls `ProxyExtendedChannelFactory::on_new_prev_hash` of `roles_logic_sv2`, which cannot fail:
/// the factory builds on the given block from now on, takes up the job of the block if that was
/// announced, and has no announced jobs any longer. The job that is taken up gets the time of the
/// machine, whose clock has to be past 1970; of that time nothing is said.
#[verifier::external_body]
fn set_factory_prev_hash(factory: &mut ProxyExtendedChannelFactory, message: &SetNewPrevHash)
    ensures
        factory_prev_hash(*final(factory)) == Some(
            (message.job_id, message.prev_hash@, message.min_ntime, message.nbits),
        ),
        factory_announced_jobs(*final(factory)).len() == 0,
        shares::factory_valid_job(*final(factory)) == job_taken_up(
            factory_announced_jobs(*old(factory)),
            shares::factory_valid_job(*old(factory)),
            message.job_id,
        ),
{
    let m = roles_logic_sv2::mining_sv2::SetNewPrevHash {
        channel_id: message.channel_id,
        job_id: message.job_id,
        prev_hash: message.prev_hash.into(),
        min_ntime: message.min_ntime,
        nbits: message.nbits,
    };
    let _ = factory.on_new_prev_hash(m);
}

/// The length of the extranonce that the proxy adds itself: what the pool leaves to it, without
/// what the downstream needs.
pub fn proxy_extranonce1_len(
    channel_extranonce2_size: usize,
    downstream_extranonce2_len: usize,
) -> (len: usize)
    requires
        downstream_extranonce2_len <= channel_extranonce2_size,
    ensures
        len == channel_extranonce2_size - downstream_extranonce2_len,
{
    channel_extranonce2_size - downstream_extranonce2_len
}

/// What a downstream of the proxy can do.
#[derive(Clone, Copy, Debug, PartialEq, Eq, Structural)]
pub struct CommonDownstreamData {
    pub header_only: bool,
    pub work_selection: bool,
    pub version_rolling: bool,
}

/// A downstream, by the id of its channel.
#[derive(Clone, Copy, Debug, PartialEq, Eq, Structural)]
pub struct Downstream(pub u32);

impl Downstream {
    /// What the downstream can do: it mines on headers, whose version it may roll, and selects no
    /// work.
    pub fn get_downstream_mining_data(&self) -> (data: CommonDownstreamData)
        ensures
            data == (CommonDownstreamData {
                header_only: true,
                work_selection: false,
                version_rolling: true,
            }),
    {
        CommonDownstreamData { header_only: true, work_selection: false, version_rolling: true }
    }
}

/// All that is needed to make the factory behind the pool's channel.
pub struct ChannelPlan {
    pub channel_id: u32,
    pub upstream_target: Vec<u8>,
    pub extranonce: ExtendedExtranonce,
}

/// Why a share could not be checked.
#[derive(Clone, Copy, Debug, PartialEq, Eq, Structural)]
pub enum SubmitFailure {
    /// The pool's channel is not open.
    NoChannel,
    /// The factory failed on the share.
    Refused,
}

/// The pool's channel, and the downstreams that share it.
pub struct Upstream<S> {
    /// The channel that the pool opened.
    pub channel_id: Option<u32>,
    /// The job of the pool, by the id that the pool gave to it.
    pub job_id: Option<u32>,
    /// The job of the last custom job that the pool accepted.
    pub last_job_id: Option<u32>,
    /// The part of the extranonce that the pool fixed.
    pub extranonce_prefix: Option<Vec<u8>>,
    /// How much of the extranonce is left to each downstream.
    pub min_extranonce_size: u16,
    /// The length of the part of the extranonce that the pool fixed.
    pub upstream_extranonce1_size: usize,
    /// Reaches the pool.
    pub sender: S,
    /// Opens channels and checks shares, once the pool's channel is open.
    pub channel_factory: Option<ProxyExtendedChannelFactory>,
    /// Reach the downstreams, each under the id of its channel.
    pub hom_downstreams: HashMap<u32, S>,
    /// The bits of the hash rate that the keep-alive reports.
    pub total_hash_rate: u32,
}

impl<S> PartialEq for Upstream<S> {
    fn eq(&self, other: &Self) -> (b: bool) {
        self.channel_id == other.channel_id
    }
}

impl<S> vstd::std_specs::cmp::PartialEqSpecImpl for Upstream<S> {
    open spec fn obeys_eq_spec() -> bool {
        true
    }

    open spec fn eq_spec(&self, other: &Self) -> bool {
        self.channel_id == other.channel_id
    }
}

impl<S> Upstream<S> {
    /// An upstream whose channel is not open.
    pub fn new(min_extranonce_size: u16, upstream_extranonce1_size: usize, sender: S) -> (upstream:
        Self)
        ensures
            upstream.channel_id is None,
            upstream.job_id is None,
            upstream.last_job_id is None,
            upstream.extranonce_prefix is None,
            upstream.min_extranonce_size == min_extranonce_size,
            upstream.upstream_extranonce1_size == upstream_extranonce1_size,
            upstream.sender == sender,
            upstream.channel_factory is None,
            upstream.hom_downstreams@ == Map::<u32, S>::empty(),
            upstream.total_hash_rate == 0,
    {
        Upstream {
            channel_id: None,
            job_id: None,
            last_job_id: None,
            extranonce_prefix: None,
            min_extranonce_size,
            upstream_extranonce1_size,
            sender,
            channel_factory: None,
            hom_downstreams: HashMap::new(),
            total_hash_rate: 0,
        }
    }

    /// The request for the channel, the first message to the pool.
    pub fn connect(&self, min_extranonce_size: u16) -> (request: OpenExtendedMiningChannel)
        ensures
            request.request_id == 0,
            request.user_identity@ == "ABC"@,
            request.nominal_hash_rate == 0,
            request.max_target@ == max_target(),
            request.min_extranonce_size == min_extranonce_size,
    {
        OpenExtendedMiningChannel {
            request_id: 0,
            user_identity: "ABC".to_string(),
            nominal_hash_rate: 0,
            max_target: max_target_bytes(),
            min_extranonce_size,
        }
    }

    /// The message that tells the pool of a new hash rate.
    pub fn update_channel(&self, nominal_hash_rate: u32) -> (update: UpdateChannel)
        requires
            self.channel_id is Some,
        ensures
            Some(update.channel_id) == self.channel_id,
            update.nominal_hash_rate == nominal_hash_rate,
            update.maximum_target@ == max_target(),
    {
        UpdateChannel {
            channel_id: self.channel_id.unwrap(),
            nominal_hash_rate,
            maximum_target: max_target_bytes(),
        }
    }

    /// The message that is sent to the pool at intervals, to keep the channel open.
    pub fn keep_alive(&self) -> (update: UpdateChannel)
        requires
            self.channel_id is Some,
        ensures
            Some(update.channel_id) == self.channel_id,
            update.nominal_hash_rate == self.total_hash_rate,
            update.maximum_target@ == max_target(),
    {
        self.update_channel(self.total_hash_rate)
    }

    /// Hands a share to the factory.
    pub fn on_submit(&mut self, share: SubmitSharesStandard) -> (outcome: Result<
        OnNewShare,
        SubmitFailure,
    >)
        ensures
            *final(self) == *old(self),
            match old(self).channel_factory {
                None => outcome == Err::<OnNewShare, _>(SubmitFailure::NoChannel),
                Some(factory) => match outcome {
                    Ok(v) => {
                        &&& shares::share_outcome(factory, share) == Some(v@)
                        &&& shares::is_outcome_of(v@, share)
                    },
                    Err(e) => {
                        &&& shares::share_outcome(factory, share) is None
                        &&& e == SubmitFailure::Refused
                    },
                },
            },
            old(self).channel_factory matches Some(factory) && shares::factory_valid_job(
                factory,
            ) is None ==> outcome is Err,
    {
        match self.channel_factory.as_mut() {
            None => Err(SubmitFailure::NoChannel),
            Some(factory) => match submit_to_factory(
                factory,
                share.channel_id,
                share.sequence_number,
                share.job_id,
                share.nonce,
                share.ntime,
                share.version,
            ) {
                Some(outcome) => Ok(outcome),
                None => Err(SubmitFailure::Refused),
            },
        }
    }

    /// Whether the pool's channel is open.
    pub fn is_open(&self) -> (b: bool)
        ensures
            b == (self.channel_factory is Some),
    {
        self.channel_factory.is_some()
    }

    /// Takes down how a downstream is reached, once its channel is open.
    pub fn register(&mut self, id: u32, sender: S)
        ensures
            final(self).hom_downstreams@ == old(self).hom_downstreams@.insert(id, sender),
            *final(self) == (Upstream {
                hom_downstreams: final(self).hom_downstreams,
                ..*old(self)
            }),
    {
        let _ = self.hom_downstreams.insert(id, sender);
    }

    /// The downstreams, each of them once, in no particular order.
    pub fn recipients(&self) -> (ids: Vec<u32>)
        ensures
            ids@.no_duplicates(),
            ids@.to_set() == self.hom_downstreams@.dom(),
    {
        let mut ids: Vec<u32> = Vec::new();
        for id in iter: self.hom_downstreams.keys()
            invariant
                ids@.len() == iter.index(),
                iter.seq().unref().to_set() == self.hom_downstreams@.dom(),
                iter.seq().no_duplicates(),
                forall|i: int| 0 <= i < ids@.len() ==> ids@[i] == *iter.seq()[i],
                iter.index() == iter.seq().len() ==> ids@ =~= iter.seq().unref(),
        {
            ids.push(*id);
        }
        ids
    }

    /// Whether the parameters of a channel are ones that the proxy can work with: the pool leaves
    /// at least as much of the extranonce as a downstream needs, and the whole of it is not too
    /// long.
    pub open spec fn accepts(&self, prefix_len: nat, extranonce_size: u16) -> bool {
        &&& self.min_extranonce_size <= extranonce_size
        &&& prefix_len + extranonce_size <= MAX_EXTRANONCE_LEN
    }

    /// Whether the proxy can work with the channel that the pool opened.
    pub fn is_accepted(&self, message: &OpenExtendedMiningChannelSuccess) -> (b: bool)
        ensures
            b == self.accepts(message.extranonce_prefix@.len(), message.extranonce_size),
    {
        let prefix_len: usize = message.extranonce_prefix.len();
        self.min_extranonce_size <= message.extranonce_size && prefix_len <= MAX_EXTRANONCE_LEN
            && prefix_len + message.extranonce_size as usize <= MAX_EXTRANONCE_LEN
    }

    /// Takes the channel that the pool opened, and returns what its factory is to be made of. The
    /// extranonce is shared out from the front: what the pool fixed, what the proxy adds to tell
    /// downstreams apart, and what is left to the downstream.
    pub fn handle_open_extended_mining_channel_success(
        &mut self,
        message: OpenExtendedMiningChannelSuccess,
    ) -> (plan: ChannelPlan)
        requires
            old(self).accepts(message.extranonce_prefix@.len(), message.extranonce_size),
        ensures
            *final(self) == (Upstream {
                channel_id: Some(message.channel_id),
                extranonce_prefix: final(self).extranonce_prefix,
                upstream_extranonce1_size: message.extranonce_prefix.len(),
                ..*old(self)
            }),
            final(self).extranonce_prefix matches Some(prefix) && prefix@
                == message.extranonce_prefix@,
            plan.channel_id == message.channel_id,
            plan.upstream_target == message.target,
            extranonce_bytes(plan.extranonce) == zero_padded(
                message.extranonce_prefix@,
                MAX_EXTRANONCE_LEN as nat,
            ),
            extranonce_ranges(plan.extranonce) == split(
                message.extranonce_prefix@.len(),
                message.extranonce_size as nat,
                old(self).min_extranonce_size as nat,
            ),
    {
        let prefix_len: usize = message.extranonce_prefix.len();
        let extranonce_size: usize = message.extranonce_size as usize;
        let proxy_len: usize = proxy_extranonce1_len(
            extranonce_size,
            self.min_extranonce_size as usize,
        );
        self.channel_id = Some(message.channel_id);
        self.extranonce_prefix = Some(message.extranonce_prefix.clone());
        self.upstream_extranonce1_size = prefix_len;
        let extranonce = from_upstream_extranonce(
            message.extranonce_prefix,
            0..prefix_len,
            prefix_len..prefix_len + proxy_len,
            prefix_len + proxy_len..prefix_len + extranonce_size,
        );
        ChannelPlan {
            channel_id: message.channel_id,
            upstream_target: message.target,
            extranonce: extranonce.unwrap(),
        }
    }

    /// Puts the factory of the pool's channel in place.
    pub fn set_channel_factory(&mut self, factory: ProxyExtendedChannelFactory)
        ensures
            *final(self) == (Upstream { channel_factory: Some(factory), ..*old(self) }),
    {
        self.channel_factory = Some(factory);
    }

    /// Takes down the id of a job of the pool.
    pub fn set_job_id(&mut self, job_id: u32)
        ensures
            *final(self) == (Upstream { job_id: Some(job_id), ..*old(self) }),
    {
        self.job_id = Some(job_id);
    }

    /// Takes down a job of the pool, and passes on what the factory made out of it, which it does
    /// exactly if the channel is open: each message goes to its downstream, and a job for a
    /// standard channel carries the id that the pool gave to the job. Before the channel is open
    /// nothing is passed on.
    pub fn handle_new_extended_mining_job<M>(
        &mut self,
        job_id: u32,
        messages: Option<Vec<(u32, JobMessage<M>)>>,
    ) -> (send_to: SendTo<JobMessage<M>>)
        requires
            messages is Some <==> old(self).channel_factory is Some,
        ensures
            *final(self) == (Upstream { job_id: Some(job_id), ..*old(self) }),
            match messages {
                Some(messages) => {
                    &&& send_to matches SendTo::Multiple(relays)
                    &&& relays@ == messages@.map_values(
                        |m: (u32, JobMessage<M>)| job_relay(m, job_id),
                    )
                    &&& forall|i: int|
                        0 <= i < messages@.len() ==> #[trigger] relays@[i] == (Relay::ToRemote {
                            downstream: messages@[i].0,
                            message: match messages@[i].1 {
                                JobMessage::NewMiningJob(job) => JobMessage::NewMiningJob(
                                    NewMiningJob {
                                        channel_id: job.channel_id,
                                        job_id,
                                        min_ntime: job.min_ntime,
                                        version: job.version,
                                        merkle_root: job.merkle_root,
                                    },
                                ),
                                JobMessage::Other(other) => JobMessage::Other(other),
                            },
                        })
                },
                None => send_to == SendTo::<JobMessage<M>>::Nothing,
            },
    {
        self.set_job_id(job_id);
        match messages {
            Some(messages) => {
                let mut relays: Vec<Relay<JobMessage<M>>> = Vec::new();
                let ghost all = messages@;
                for m in iter: messages
                    invariant
                        iter.seq() == all,
                        relays@ =~= all.take(iter.index() as int).map_values(
                            |m: (u32, JobMessage<M>)| job_relay(m, job_id),
                        ),
                {
                    let (downstream, message) = m;
                    let message = match message {
                        JobMessage::NewMiningJob(job) => JobMessage::NewMiningJob(
                            NewMiningJob { job_id, ..job },
                        ),
                        JobMessage::Other(other) => JobMessage::Other(other),
                    };
                    relays.push(Relay::ToRemote { downstream, message });
                }
                proof {
                    assert(all.take(all.len() as int) =~= all);
                }
                SendTo::Multiple(relays)
            },
            None => SendTo::Nothing,
        }
    }

    /// Builds on a new block from now on, with the job that was announced for it, and passes the
    /// message on to every downstream. Before the channel is open nothing happens.
    pub fn handle_set_new_prev_hash(&mut self, message: SetNewPrevHash) -> (send_to: SendTo<
        SetNewPrevHash,
    >)
        ensures
            *final(self) == (Upstream {
                channel_factory: final(self).channel_factory,
                ..*old(self)
            }),
            match old(self).channel_factory {
                Some(before) => {
                    &&& send_to == SendTo::RelaySetNewPrevHash(message)
                    &&& final(self).channel_factory matches Some(factory)
                    &&& factory_prev_hash(factory) == Some(
                        (message.job_id, message.prev_hash@, message.min_ntime, message.nbits),
                    )
                    &&& factory_announced_jobs(factory).len() == 0
                    &&& shares::factory_valid_job(factory) == job_taken_up(
                        factory_announced_jobs(before),
                        shares::factory_valid_job(before),
                        message.job_id,
                    )
                },
                None => {
                    &&& send_to == SendTo::<SetNewPrevHash>::Nothing
                    &&& final(self).channel_factory is None
                },
            },
    {
        match self.channel_factory.as_mut() {
            Some(factory) => {
                set_factory_prev_hash(factory, &message);
                SendTo::RelaySetNewPrevHash(message)
            },
            None => SendTo::Nothing,
        }
    }

    /// Takes down the job of a custom job that the pool accepted.
    pub fn handle_set_custom_mining_job_success<M>(&mut self, job_id: u32) -> (send_to: SendTo<M>)
        ensures
            *final(self) == (Upstream { last_job_id: Some(job_id), ..*old(self) }),
            send_to == SendTo::<M>::Nothing,
    {
        self.last_job_id = Some(job_id);
        SendTo::Nothing
    }

    /// Whether there is a route for what a handler asked for. An upstream has none for a message
    /// that is to be relayed in another way than by its handlers, nor for one to a downstream that
    /// it does not know.
    pub open spec fn routable<M>(&self, outcome: Result<SendTo<M>, ()>) -> bool {
        match outcome {
            Ok(SendTo::Multiple(relays)) => forall|i: int|
                0 <= i < relays@.len() ==> self.knows(#[trigger] relays@[i]),
            Ok(SendTo::Other) => false,
            _ => true,
        }
    }

    /// Whether a message is for a downstream that is known.
    pub open spec fn knows<M>(&self, relay: Relay<M>) -> bool {
        relay matches Relay::ToRemote { downstream, .. } && self.hom_downstreams@.contains_key(
            downstream,
        )
    }

    /// Whether there is a route for what a handler asked for.
    pub fn is_routable<M>(&self, outcome: &Result<SendTo<M>, ()>) -> (b: bool)
        ensures
            b == self.routable(*outcome),
    {
        match outcome {
            Ok(SendTo::Multiple(relays)) => {
                let mut i: usize = 0;
                while i < relays.len()
                    invariant
                        i <= relays@.len(),
                        *outcome == Ok::<_, ()>(SendTo::Multiple(*relays)),
                        forall|j: int| 0 <= j < i ==> self.knows(#[trigger] relays@[j]),
                    decreases relays@.len() - i,
                {
                    let known = match &relays[i] {
                        Relay::ToRemote { downstream, .. } => self.hom_downstreams.contains_key(
                            downstream,
                        ),
                        Relay::Other => false,
                    };
                    if !known {
                        proof {
                            let relays = outcome->Ok_0->Multiple_0;
                            assert(!self.knows(relays@[i as int]));
                        }
                        return false;
                    }
                    i = i + 1;
                }
                true
            },
            Ok(SendTo::Other) => false,
            _ => true,
        }
    }

    /// Decides where the messages go that a handler asked for. A handler that failed ends the loop
    /// over the pool's messages.
    pub fn route<M>(&self, outcome: Result<SendTo<M>, ()>) -> (route: Route<M>)
        requires
            self.routable(outcome),
        ensures
            match outcome {
                Ok(SendTo::Respond(message)) => route == Route::ToUpstream(message),
                Ok(SendTo::RelaySetNewPrevHash(message)) => {
                    &&& route matches Route::Broadcast { recipients, message: sent }
                    &&& sent == message
                    &&& recipients@.no_duplicates()
                    &&& recipients@.to_set() == self.hom_downstreams@.dom()
                },
                Ok(SendTo::Multiple(relays)) => {
                    &&& route matches Route::ToDownstreams(messages)
                    &&& messages@.len() == relays@.len()
                    &&& forall|i: int|
                        0 <= i < relays@.len() ==> #[trigger] relays@[i] == (Relay::ToRemote {
                            downstream: messages@[i].0,
                            message: messages@[i].1,
                        })
                },
                Ok(_) => route == Route::<M>::Nothing,
                Err(_) => route == Route::<M>::Stop,
            },
    {
        match outcome {
            Ok(SendTo::Respond(message)) => Route::ToUpstream(message),
            Ok(SendTo::RelaySetNewPrevHash(message)) => Route::Broadcast {
                recipients: self.recipients(),
                message,
            },
            Ok(SendTo::Multiple(relays)) => {
                let ghost all = relays@;
                let mut messages: Vec<(u32, M)> = Vec::new();
                for relay in iter: relays
                    invariant
                        iter.seq() == all,
                        forall|i: int| 0 <= i < all.len() ==> self.knows(#[trigger] all[i]),
                        messages@.len() == iter.index(),
                        forall|i: int|
                            0 <= i < messages@.len() ==> #[trigger] all[i] == (Relay::ToRemote {
                                downstream: messages@[i].0,
                                message: messages@[i].1,
                            }),
                {
                    assert(self.knows(all[iter.index() as int]));
                    match relay {
                        Relay::ToRemote { downstream, message } => {
                            messages.push((downstream, message));
                        },
                        Relay::Other => {},
                    }
                }
                Route::ToDownstreams(messages)
            },
            Ok(_) => Route::Nothing,
            Err(_) => Route::Stop,
        }
    }
}

/// A message that the factory made out of a job, on its way to its downstream.
pub open spec fn job_relay<M>(message: (u32, JobMessage<M>), job_id: u32) -> Relay<JobMessage<M>> {
    Relay::ToRemote {
        downstream: message.0,
        message: match message.1 {
            JobMessage::NewMiningJob(job) => JobMessage::NewMiningJob(
                NewMiningJob { job_id, ..job },
            ),
            JobMessage::Other(other) => JobMessage::Other(other),
        },
    }
}

/// A message that the factory made out of a job goes to the downstream that it was made for. One with
/// a job for a standard channel carries the id of the pool's job, whatever that is, and is otherwise
/// left as it was; any other one is left as it was.
pub proof fn law_jobs_carry_the_id_of_the_pool<M>(message: (u32, JobMessage<M>), job_id: u32)
    ensures
        job_relay(message, job_id) matches Relay::ToRemote { downstream, message: sent } && {
            &&& downstream == message.0
            &&& message.1 matches JobMessage::NewMiningJob(job) ==> {
                &&& sent matches JobMessage::NewMiningJob(passed_on)
                &&& passed_on.job_id == job_id
                &&& passed_on.channel_id == job.channel_id
                &&& passed_on.min_ntime == job.min_ntime
                &&& passed_on.version == job.version
                &&& passed_on.merkle_root == job.merkle_root
            }
            &&& message.1 is Other ==> sent == message.1
        },
{
}

/// Which id the factory gave to a job does not show in what is passed on, and two jobs of the pool
/// are told apart.
pub proof fn law_factory_ids_do_not_show<M>(
    downstream: u32,
    job: NewMiningJob,
    other_id: u32,
    job_id: u32,
    other_job_id: u32,
)
    ensures
        job_relay((downstream, JobMessage::<M>::NewMiningJob(job)), job_id) == job_relay(
            (downstream, JobMessage::<M>::NewMiningJob(NewMiningJob { job_id: other_id, ..job })),
            job_id,
        ),
        job_id != other_job_id ==> job_relay(
            (downstream, JobMessage::<M>::NewMiningJob(job)),
            job_id,
        ) != job_relay((downstream, JobMessage::<M>::NewMiningJob(job)), other_job_id),
{
    law_jobs_carry_the_id_of_the_pool((downstream, JobMessage::<M>::NewMiningJob(job)), job_id);
    law_jobs_carry_the_id_of_the_pool(
        (downstream, JobMessage::<M>::NewMiningJob(job)),
        other_job_id,
    );
}

/// Every hash meets the largest target: it has 32 bytes, and all their bits are set.
pub proof fn law_largest_target()
    ensures
        max_target().len() == 32,
        forall|i: int| 0 <= i < 32 ==> #[trigger] max_target()[i] == 255,
{
}

/// A prefix that is filled up starts with all of its own bytes, and zeros follow.
pub proof fn law_prefix_is_filled_up(prefix: Seq<u8>, len: nat)
    requires
        prefix.len() <= len,
    ensures
        zero_padded(prefix, len).len() == len,
        forall|i: int| 0 <= i < prefix.len() ==> #[trigger] zero_padded(prefix, len)[i] == prefix[i],
        forall|i: int| prefix.len() <= i < len ==> #[trigger] zero_padded(prefix, len)[i] == 0,
{
}

/// The proxy can work with a channel exactly if the pool leaves what a downstream needs, in an
/// extranonce of 32 bytes at most.
pub proof fn law_accepted_channels<S>(upstream: Upstream<S>, prefix_len: nat, extranonce_size: u16)
    ensures
        upstream.accepts(prefix_len, extranonce_size) <==> upstream.min_extranonce_size
            <= extranonce_size && prefix_len + extranonce_size <= 32,
{
}

/// There is a route for everything that the handlers ask for, but for messages to downstreams that
/// nobody registered and for what no handler of the proxy asks for.
pub proof fn law_what_has_a_route<S, M>(
    upstream: Upstream<S>,
    outcome: Result<SendTo<M>, ()>,
)
    ensures
        upstream.routable(outcome) <==> match outcome {
            Ok(SendTo::Multiple(relays)) => forall|i: int|
                0 <= i < relays@.len() ==> ((#[trigger] relays@[i]) matches Relay::ToRemote {
                    downstream,
                    ..
                } && upstream.hom_downstreams@.contains_key(downstream)),
            Ok(SendTo::Other) => false,
            _ => true,
        },
{
    if let Ok(SendTo::Multiple(relays)) = outcome {
        if upstream.routable(outcome) {
            assert forall|i: int| 0 <= i < relays@.len() implies ((
            #[trigger] relays@[i]) matches Relay::ToRemote { downstream, .. }
                && upstream.hom_downstreams@.contains_key(downstream)) by {
                assert(upstream.knows(relays@[i]));
            }
        }
    }
}

/// The job of a block is taken up if it was announced. If only others were, there is none to work
/// on, and if nothing was, nothing changes.
pub proof fn law_announced_job_is_taken_up(announced: Seq<u32>, valid: Option<u32>, job_id: u32)
    ensures
        announced.contains(job_id) ==> job_taken_up(announced, valid, job_id) == Some(job_id),
        !announced.contains(job_id) && announced.len() > 0 ==> job_taken_up(
            announced,
            valid,
            job_id,
        ) is None,
        announced.len() == 0 ==> job_taken_up(announced, valid, job_id) == valid,
{
}

/// How an extranonce is shared out: the ranges of the pool, the proxy and the downstream, where the
/// pool fixed a prefix and left some bytes, of which the downstream gets as many as it needs.
pub open spec fn split(prefix_len: nat, left: nat, needed: nat) -> Seq<(usize, usize)> {
    let own_end = prefix_len + left - needed;
    seq![
        (0usize, prefix_len as usize),
        (prefix_len as usize, own_end as usize),
        (own_end as usize, (prefix_len + left) as usize),
    ]
}

/// What the pool leaves of an extranonce is shared out without a gap or an overlap: the proxy and
/// the downstream together get all of it, and the downstream gets what it needs.
pub proof fn law_extranonce_is_shared_out(prefix_len: nat, left: nat, needed: nat)
    requires
        needed <= left,
        prefix_len + left <= MAX_EXTRANONCE_LEN,
    ensures
        ({
            let ranges = split(prefix_len, left, needed);
            &&& ranges.len() == 3
            &&& ranges[0].0 == 0
            &&& ranges[0].1 == ranges[1].0 == prefix_len
            &&& ranges[1].1 == ranges[2].0
            &&& ranges[2].1 == prefix_len + left
            &&& ranges[2].1 - ranges[2].0 == needed
            &&& ranges[1].1 - ranges[1].0 + needed == left
        }),
{
}

/// Two upstreams are taken for the same exactly if the pool opened the same channel for both, or for
/// neither.
pub proof fn law_upstreams_are_told_apart_by_channel<S>(a: Upstream<S>, b: Upstream<S>)
    ensures
        vstd::std_specs::cmp::PartialEqSpec::eq_spec(&a, &b) <==> a.channel_id == b.channel_id,
{
}

/// The first message to the pool asks for a channel with the given size of the extranonce, whatever
/// that is, and names no hash rate yet.
pub proof fn law_request_for_the_channel<S>(
    upstream: Upstream<S>,
    min_extranonce_size: u16,
    request: OpenExtendedMiningChannel,
)
    requires
        call_ensures(Upstream::<S>::connect, (&upstream, min_extranonce_size), request),
    ensures
        request.request_id == 0,
        request.user_identity@ == "ABC"@,
        request.nominal_hash_rate == 0,
        request.max_target@ == Seq::new(32, |i: int| 255u8),
        request.min_extranonce_size == min_extranonce_size,
{
}

/// Whatever the hash rate, the pool is told of that very one, for the channel that it opened, and
/// with the largest target. The messages that keep the channel open tell of the hash rate that the
/// upstream holds.
pub proof fn law_pool_is_told_the_hash_rate<S>(
    upstream: Upstream<S>,
    hash_rate: u32,
    update: UpdateChannel,
    keep_alive: UpdateChannel,
)
    requires
        call_ensures(Upstream::<S>::update_channel, (&upstream, hash_rate), update),
        call_ensures(Upstream::<S>::keep_alive, (&upstream,), keep_alive),
    ensures
        upstream.channel_id == Some(update.channel_id),
        update.nominal_hash_rate == hash_rate,
        update.maximum_target@ == Seq::new(32, |i: int| 255u8),
        upstream.channel_id == Some(keep_alive.channel_id),
        keep_alive.nominal_hash_rate == upstream.total_hash_rate,
        keep_alive.maximum_target@ == update.maximum_target@,
{
}

/// A channel that the pool opens is taken over as it is. Its id is the one that the pool is told of
/// from then on, and of the extranonce the pool has the front, the downstream as many bytes at the
/// end as it needs, and the proxy all that is between.
pub proof fn law_opened_channel_is_taken_over<S>(
    upstream: &mut Upstream<S>,
    message: OpenExtendedMiningChannelSuccess,
    plan: ChannelPlan,
    hash_rate: u32,
    update: UpdateChannel,
)
    requires
        old(upstream).min_extranonce_size <= message.extranonce_size,
        message.extranonce_prefix@.len() + message.extranonce_size <= 32,
        call_ensures(
            Upstream::<S>::handle_open_extended_mining_channel_success,
            (upstream, message),
            plan,
        ),
        call_ensures(Upstream::<S>::update_channel, (&*final(upstream), hash_rate), update),
    ensures
        update.channel_id == message.channel_id,
        plan.channel_id == message.channel_id,
        plan.upstream_target == message.target,
        final(upstream).extranonce_prefix matches Some(prefix) && prefix@
            == message.extranonce_prefix@,
        final(upstream).upstream_extranonce1_size == message.extranonce_prefix@.len(),
        final(upstream).min_extranonce_size == old(upstream).min_extranonce_size,
        final(upstream).hom_downstreams@ == old(upstream).hom_downstreams@,
        extranonce_bytes(plan.extranonce).take(message.extranonce_prefix@.len() as int)
            == message.extranonce_prefix@,
        ({
            let ranges = extranonce_ranges(plan.extranonce);
            let end = message.extranonce_prefix@.len() + message.extranonce_size;
            &&& ranges.len() == 3
            &&& ranges[0] == (0usize, message.extranonce_prefix@.len() as usize)
            &&& ranges[1].0 == message.extranonce_prefix@.len()
            &&& ranges[1].1 == end - old(upstream).min_extranonce_size
            &&& ranges[2].0 == end - old(upstream).min_extranonce_size
            &&& ranges[2].1 == end
        }),
{
    assert(extranonce_bytes(plan.extranonce).take(message.extranonce_prefix@.len() as int)
        =~= message.extranonce_prefix@);
}

/// A job of the pool reaches the downstreams that the factory made messages for, each the message for
/// it and in the same order. A job for a standard channel carries the id that the pool gave to the
/// job, whatever that is and whatever id the factory gave to it, and is otherwise left as it was.
pub proof fn law_job_reaches_its_downstreams<S, M>(
    upstream: &mut Upstream<S>,
    job_id: u32,
    messages: Vec<(u32, JobMessage<M>)>,
    send_to: SendTo<JobMessage<M>>,
    route: Route<JobMessage<M>>,
    i: int,
)
    requires
        call_ensures(
            Upstream::<S>::handle_new_extended_mining_job::<M>,
            (upstream, job_id, Some(messages)),
            send_to,
        ),
        call_ensures(
            Upstream::<S>::route::<JobMessage<M>>,
            (&*final(upstream), Ok::<_, ()>(send_to)),
            route,
        ),
        0 <= i < messages@.len(),
    ensures
        final(upstream).job_id == Some(job_id),
        final(upstream).hom_downstreams@ == old(upstream).hom_downstreams@,
        route matches Route::ToDownstreams(sent) && {
            &&& sent@.len() == messages@.len()
            &&& sent@[i].0 == messages@[i].0
            &&& messages@[i].1 is Other ==> sent@[i].1 == messages@[i].1
            &&& messages@[i].1 matches JobMessage::NewMiningJob(job) ==> {
                &&& sent@[i].1 matches JobMessage::NewMiningJob(passed_on)
                &&& passed_on.job_id == job_id
                &&& passed_on.channel_id == job.channel_id
                &&& passed_on.min_ntime == job.min_ntime
                &&& passed_on.version == job.version
                &&& passed_on.merkle_root == job.merkle_root
            }
        },
{
    let relays = send_to->Multiple_0;
    assert(relays@[i] is ToRemote);
}

/// Once the channel is open, a new block is told to every downstream that was registered and to
/// nobody else, to each once, and as the pool told of it. The factory builds on that block.
pub proof fn law_new_block_reaches_every_downstream<S>(
    upstream: &mut Upstream<S>,
    message: SetNewPrevHash,
    send_to: SendTo<SetNewPrevHash>,
    route: Route<SetNewPrevHash>,
    id: u32,
)
    requires
        old(upstream).channel_factory is Some,
        call_ensures(Upstream::<S>::handle_set_new_prev_hash, (upstream, message), send_to),
        call_ensures(
            Upstream::<S>::route::<SetNewPrevHash>,
            (&*final(upstream), Ok::<_, ()>(send_to)),
            route,
        ),
    ensures
        route matches Route::Broadcast { recipients, message: told } && {
            &&& told == message
            &&& recipients@.no_duplicates()
            &&& recipients@.contains(id) <==> old(upstream).hom_downstreams@.contains_key(id)
        },
        final(upstream).channel_factory matches Some(factory) && factory_prev_hash(factory) == Some(
            (message.job_id, message.prev_hash@, message.min_ntime, message.nbits),
        ),
        final(upstream).channel_id == old(upstream).channel_id,
        final(upstream).job_id == old(upstream).job_id,
{
    let recipients = route->recipients;
    assert(recipients@.to_set().contains(id) == recipients@.contains(id));
}

/// A downstream that is registered is among those that messages for all go to, and so are those
/// that were registered before, and no others.
pub proof fn law_registered_downstreams_are_reached<S>(
    upstream: &mut Upstream<S>,
    id: u32,
    sender: S,
    before: Vec<u32>,
    after: Vec<u32>,
    other: u32,
)
    requires
        call_ensures(Upstream::<S>::recipients, (&*old(upstream),), before),
        call_ensures(Upstream::<S>::register, (upstream, id, sender), ()),
        call_ensures(Upstream::<S>::recipients, (&*final(upstream),), after),
    ensures
        after@.contains(other) <==> other == id || before@.contains(other),
        after@.no_duplicates(),
        final(upstream).hom_downstreams@[id] == sender,
        other != id && before@.contains(other) ==> final(upstream).hom_downstreams@[other] == old(
            upstream,
        ).hom_downstreams@[other],
{
    assert(before@.to_set().contains(other) == before@.contains(other));
    assert(after@.to_set().contains(other) == after@.contains(other));
}

/// What a handler asks for is done: a message for the pool goes there as it is, nothing is sent
/// where nothing was asked for, and the loop over the pool's messages stops exactly if a handler
/// failed.
pub proof fn law_what_handlers_ask_for_is_done<S, M>(
    upstream: Upstream<S>,
    outcome: Result<SendTo<M>, ()>,
    route: Route<M>,
    message: M,
)
    requires
        outcome !is Err ==> outcome->Ok_0 !is Other,
        call_ensures(Upstream::<S>::route::<M>, (&upstream, outcome), route),
    ensures
        route == Route::ToUpstream(message) <==> outcome == Ok::<_, ()>(SendTo::Respond(message)),
        route is Nothing <==> outcome == Ok::<SendTo<M>, ()>(SendTo::Nothing),
        route is Stop <==> outcome is Err,
{
}

/// A share is handed over as it is, and leaves no trace in the upstream. Before the channel is open
/// no share is checked.
pub proof fn law_share_is_handed_over<S>(
    upstream: &mut Upstream<S>,
    share: SubmitSharesStandard,
    outcome: Result<OnNewShare, SubmitFailure>,
)
    requires
        call_ensures(Upstream::<S>::on_submit, (upstream, share), outcome),
    ensures
        *final(upstream) == *old(upstream),
        old(upstream).channel_factory is None <==> outcome == Err::<OnNewShare, _>(
            SubmitFailure::NoChannel,
        ),
        old(upstream).channel_factory matches Some(factory) ==> (shares::share_outcome(
            factory,
            share,
        ) == match outcome {
            Ok(found) => Some(found@),
            Err(_) => None,
        }),
{
}

/// What a new upstream is told, it keeps: the size of the extranonce and how the pool is reached. It
/// has no channel and no downstreams.
pub proof fn law_new_upstream<S>(
    min_extranonce_size: u16,
    prefix_len: usize,
    sender: S,
    upstream: Upstream<S>,
)
    requires
        call_ensures(Upstream::<S>::new, (min_extranonce_size, prefix_len, sender), upstream),
    ensures
        upstream.min_extranonce_size == min_extranonce_size,
        upstream.upstream_extranonce1_size == prefix_len,
        upstream.sender == sender,
        upstream.channel_id is None && upstream.channel_factory is None,
        upstream.job_id is None && upstream.last_job_id is None,
        forall|id: u32| !upstream.hom_downstreams@.contains_key(id),
        upstream.total_hash_rate == 0,
{
}

/// The channel is open from when its factory is put in place, and the factory is that very one.
/// Nothing else changes by it.
pub proof fn law_factory_opens_the_channel<S>(
    upstream: &mut Upstream<S>,
    factory: ProxyExtendedChannelFactory,
    before: bool,
    after: bool,
)
    requires
        call_ensures(Upstream::<S>::is_open, (&*old(upstream),), before),
        call_ensures(Upstream::<S>::set_channel_factory, (upstream, factory), ()),
        call_ensures(Upstream::<S>::is_open, (&*final(upstream),), after),
    ensures
        before <==> old(upstream).channel_factory is Some,
        after,
        final(upstream).channel_factory == Some(factory),
        final(upstream).channel_id == old(upstream).channel_id,
        final(upstream).hom_downstreams@ == old(upstream).hom_downstreams@,
        final(upstream).job_id == old(upstream).job_id,
{
}

/// The channel that the pool opened is accepted exactly if it leaves what a downstream needs in an
/// extranonce of 32 bytes at most. Then the proxy itself has all that the downstream does not need.
pub proof fn law_accepted_channel<S>(
    upstream: Upstream<S>,
    message: OpenExtendedMiningChannelSuccess,
    accepted: bool,
    left: usize,
    needed: usize,
    own: usize,
)
    requires
        call_ensures(Upstream::<S>::is_accepted, (&upstream, &message), accepted),
        needed <= left,
        call_ensures(proxy_extranonce1_len, (left, needed), own),
    ensures
        accepted <==> upstream.min_extranonce_size <= message.extranonce_size
            && message.extranonce_prefix@.len() + message.extranonce_size <= 32,
        own + needed == left,
{
}

/// The ids of jobs are taken down as they are, that of a job of the pool and that of a custom job that
/// the pool accepted, each in its own place. The latter is not passed on.
pub proof fn law_job_ids_are_taken_down<S, M>(
    plain: &mut Upstream<S>,
    custom: &mut Upstream<S>,
    job_id: u32,
    send_to: SendTo<M>,
)
    requires
        call_ensures(Upstream::<S>::set_job_id, (plain, job_id), ()),
        call_ensures(
            Upstream::<S>::handle_set_custom_mining_job_success::<M>,
            (custom, job_id),
            send_to,
        ),
    ensures
        final(plain).job_id == Some(job_id),
        final(plain).last_job_id == old(plain).last_job_id,
        final(custom).last_job_id == Some(job_id),
        final(custom).job_id == old(custom).job_id,
        send_to is Nothing,
{
}

/// Every downstream mines on headers whose version it may roll, and selects no work.
pub proof fn law_what_downstreams_can_do(downstream: Downstream, data: CommonDownstreamData)
    requires
        call_ensures(Downstream::get_downstream_mining_data, (&downstream,), data),
    ensures
        data.header_only,
        !data.work_selection,
        data.version_rolling,
{
}

/// There is a route for every answer to the pool, for every message to all and for every failure, and
/// for messages to single downstreams as long as each of them is registered.
pub proof fn law_found_routes<S, M>(
    upstream: Upstream<S>,
    outcome: Result<SendTo<M>, ()>,
    routable: bool,
)
    requires
        call_ensures(Upstream::<S>::is_routable::<M>, (&upstream, &outcome), routable),
    ensures
        routable <==> match outcome {
            Ok(SendTo::Multiple(relays)) => forall|i: int|
                0 <= i < relays@.len() ==> ((#[trigger] relays@[i]) matches Relay::ToRemote {
                    downstream,
                    ..
                } && upstream.hom_downstreams@.contains_key(downstream)),
            Ok(SendTo::Other) => false,
            _ => true,
        },
{
    law_what_has_a_route(upstream, outcome);
}

} // verus!
