//! Shares of downstreams: what the pool's channel makes of one, and who is told.
use roles_logic_sv2::channel_logic::channel_factory::{
    OnNewShare as Outside, ProxyExtendedChannelFactory, Share,
};
use roles_logic_sv2::mining_sv2::SubmitSharesStandard as OutsideShare;
use vstd::prelude::*;

verus! {

/// The factory of `roles_logic_sv2` that stands behind the channel of the pool: it opens the
/// channels of the downstreams, makes their jobs and checks their shares.
#[verifier::external_type_specification]
#[verifier::external_body]
pub struct ExProxyExtendedChannelFactory(
    roles_logic_sv2::channel_logic::channel_factory::ProxyExtendedChannelFactory,
);

/// A share of a standard channel.
#[derive(Clone, Copy, Debug, PartialEq, Eq, Structural)]
pub struct SubmitSharesStandard {
    pub channel_id: u32,
    pub sequence_number: u32,
    pub job_id: u32,
    pub nonce: u32,
    pub ntime: u32,
    pub version: u32,
}

/// A share as it goes to the pool.
pub struct SubmitSharesExtended {
    pub channel_id: u32,
    pub sequence_number: u32,
    pub job_id: u32,
    pub nonce: u32,
    pub ntime: u32,
    pub version: u32,
    pub extranonce: Vec<u8>,
}

/// The answer to a share that is refused.
pub struct SubmitSharesError {
    pub channel_id: u32,
    pub sequence_number: u32,
    pub error_code: String,
}

/// The answer to shares that are accepted.
#[derive(Clone, Copy, Debug, PartialEq, Eq, Structural)]
pub struct SubmitSharesSuccess {
    pub channel_id: u32,
    pub last_sequence_number: u32,
    pub new_submits_accepted_count: u32,
    pub new_shares_sum: u64,
}

/// What the pool's channel makes of a share.
pub enum OnNewShare {
    /// The share is for no channel, or meets no target.
    SendErrorDownstream(SubmitSharesError),
    /// The share meets the target of the pool.
    SendSubmitShareUpstream(SubmitSharesExtended),
    /// The share meets the target of the pool, and was left in the form of a standard channel.
    SendStandardShareUpstream,
    /// The share is to be relayed as it is.
    RelaySubmitShareUpstream,
    /// The share meets the target of the network.
    ShareMeetBitcoinTarget,
    /// The share meets the target of the downstream only.
    ShareMeetDownstreamTarget,
}

/// What an [`OnNewShare`] stands for.
pub ghost enum OnNewShareView {
    SendErrorDownstream { channel_id: u32, sequence_number: u32, error_code: Seq<char> },
    SendSubmitShareUpstream {
        channel_id: u32,
        sequence_number: u32,
        job_id: u32,
        nonce: u32,
        ntime: u32,
        version: u32,
        extranonce: Seq<u8>,
    },
    SendStandardShareUpstream,
    RelaySubmitShareUpstream,
    ShareMeetBitcoinTarget,
    ShareMeetDownstreamTarget,
}

impl View for OnNewShare {
    type V = OnNewShareView;

    open spec fn view(&self) -> OnNewShareView {
        match *self {
            OnNewShare::SendErrorDownstream(e) => OnNewShareView::SendErrorDownstream {
                channel_id: e.channel_id,
                sequence_number: e.sequence_number,
                error_code: e.error_code@,
            },
            OnNewShare::SendSubmitShareUpstream(s) => OnNewShareView::SendSubmitShareUpstream {
                channel_id: s.channel_id,
                sequence_number: s.sequence_number,
                job_id: s.job_id,
                nonce: s.nonce,
                ntime: s.ntime,
                version: s.version,
                extranonce: s.extranonce@,
            },
            OnNewShare::SendStandardShareUpstream => OnNewShareView::SendStandardShareUpstream,
            OnNewShare::RelaySubmitShareUpstream => OnNewShareView::RelaySubmitShareUpstream,
            OnNewShare::ShareMeetBitcoinTarget => OnNewShareView::ShareMeetBitcoinTarget,
            OnNewShare::ShareMeetDownstreamTarget => OnNewShareView::ShareMeetDownstreamTarget,
        }
    }
}

/// Whether an outcome is one of the given share: an error names its channel and sequence number,
/// and what goes to the pool is the work of the share, in the form of an extended channel.
pub open spec fn is_outcome_of(outcome: OnNewShareView, share: SubmitSharesStandard) -> bool {
    match outcome {
        OnNewShareView::SendErrorDownstream { channel_id, sequence_number, error_code } => {
            &&& channel_id == share.channel_id
            &&& sequence_number == share.sequence_number
            &&& error_code == "invalid-channel-id"@ || error_code == "difficulty-too-low"@
        },
        OnNewShareView::SendSubmitShareUpstream {
            sequence_number,
            job_id,
            nonce,
            ntime,
            version,
            ..
        } => {
            &&& sequence_number == share.sequence_number
            &&& job_id == share.job_id
            &&& nonce == share.nonce
            &&& ntime == share.ntime
            &&& version == share.version
        },
        OnNewShareView::SendStandardShareUpstream => false,
        OnNewShareView::RelaySubmitShareUpstream => false,
        OnNewShareView::ShareMeetBitcoinTarget => true,
        OnNewShareView::ShareMeetDownstreamTarget => true,
    }
}

/// The id of the job that a factory works on at the moment.
pub uninterp spec fn factory_valid_job(factory: ProxyExtendedChannelFactory) -> Option<u32>;

/// What `ProxyExtendedChannelFactory::on_submit_shares_standard` returns for a share: nothing
/// where it fails, as when there is no job or no previous hash yet.
pub uninterp spec fn share_outcome(
    factory: ProxyExtendedChannelFactory,
    share: SubmitSharesStandard,
) -> Option<OnNewShareView>;

/// Calls `ProxyExtendedChannelFactory::on_submit_shares_standard` of `roles_logic_sv2`, which
/// checks the share against the targets and leaves the factory as it was. Its outcome is a
/// function of the factory and the share. An error carries the channel and the sequence number of
/// the share and one of two codes, and what is sent to the pool carries the job, nonce, time and
/// version of the share; a factory of a proxy neither relays a share nor leaves it in the standard
/// form. Without a job to work on it fails.
#[verifier::external_body]
pub(crate) fn submit_to_factory(
    factory: &mut ProxyExtendedChannelFactory,
    channel_id: u32,
    sequence_number: u32,
    job_id: u32,
    nonce: u32,
    ntime: u32,
    version: u32,
) -> (outcome: Option<OnNewShare>)
    ensures
        *final(factory) == *old(factory),
        ({
            let share = SubmitSharesStandard {
                channel_id,
                sequence_number,
                job_id,
                nonce,
                ntime,
                version,
            };
            match outcome {
                Some(v) => share_outcome(*old(factory), share) == Some(v@) && is_outcome_of(
                    v@,
                    share,
                ),
                None => share_outcome(*old(factory), share) is None,
            }
        }),
        factory_valid_job(*old(factory)) is None ==> outcome is None,
{
    let m = OutsideShare { channel_id, sequence_number, job_id, nonce, ntime, version };
    Some(match factory.on_submit_shares_standard(m).ok()? {
        Outside::SendErrorDownstream(e) => OnNewShare::SendErrorDownstream(SubmitSharesError {
            channel_id: e.channel_id, sequence_number: e.sequence_number,
            error_code: String::from_utf8_lossy(e.error_code.inner_as_ref()).into_owned(),
        }),
        Outside::SendSubmitShareUpstream((Share::Extended(s), _)) => OnNewShare::SendSubmitShareUpstream(SubmitSharesExtended {
            channel_id: s.channel_id, sequence_number: s.sequence_number, job_id: s.job_id, nonce: s.nonce,
            ntime: s.ntime, version: s.version, extranonce: s.extranonce.to_vec(),
        }),
        Outside::SendSubmitShareUpstream(_) => OnNewShare::SendStandardShareUpstream,
        Outside::RelaySubmitShareUpstream => OnNewShare::RelaySubmitShareUpstream,
        Outside::ShareMeetBitcoinTarget(_) => OnNewShare::ShareMeetBitcoinTarget,
        Outside::ShareMeetDownstreamTarget => OnNewShare::ShareMeetDownstreamTarget,
    })
}

/// What the downstream is told of its share.
pub enum ShareResponse {
    Error(SubmitSharesError),
    Accepted,
}

/// What is to be done with a share: the response to its downstream, and what goes to the pool.
pub struct SubmissionPlan {
    pub response: ShareResponse,
    pub upstream: Option<SubmitSharesExtended>,
}

/// Whether an outcome is one that the proxy has a plan for. The others have no place in a proxy
/// that opens a single extended channel and declares no jobs of its own.
pub open spec fn has_plan(outcome: OnNewShareView) -> bool {
    match outcome {
        OnNewShareView::SendErrorDownstream { .. } => true,
        OnNewShareView::SendSubmitShareUpstream { .. } => true,
        OnNewShareView::SendStandardShareUpstream => false,
        OnNewShareView::RelaySubmitShareUpstream => false,
        OnNewShareView::ShareMeetBitcoinTarget => false,
        OnNewShareView::ShareMeetDownstreamTarget => true,
    }
}

/// Whether the proxy has a plan for the outcome.
pub fn is_planned(outcome: &OnNewShare) -> (b: bool)
    ensures
        b == has_plan(outcome@),
{
    match outcome {
        OnNewShare::SendErrorDownstream(_) => true,
        OnNewShare::SendSubmitShareUpstream(_) => true,
        OnNewShare::SendStandardShareUpstream => false,
        OnNewShare::RelaySubmitShareUpstream => false,
        OnNewShare::ShareMeetBitcoinTarget => false,
        OnNewShare::ShareMeetDownstreamTarget => true,
    }
}

/// What is to be done about an outcome: an error goes back to the downstream and nothing to the
/// pool; a share that meets the pool's target goes to the pool; every share that is not refused
/// is accepted.
pub open spec fn planned(outcome: OnNewShare) -> SubmissionPlan {
    match outcome {
        OnNewShare::SendErrorDownstream(e) => SubmissionPlan {
            response: ShareResponse::Error(e),
            upstream: None,
        },
        OnNewShare::SendSubmitShareUpstream(s) => SubmissionPlan {
            response: ShareResponse::Accepted,
            upstream: Some(s),
        },
        _ => SubmissionPlan { response: ShareResponse::Accepted, upstream: None },
    }
}

/// Turns an outcome into what is to be done.
pub fn plan_submission(outcome: OnNewShare) -> (plan: SubmissionPlan)
    requires
        has_plan(outcome@),
    ensures
        plan == planned(outcome),
        forall|s: SubmitSharesExtended|
            plan.upstream == Some(s) <==> outcome == OnNewShare::SendSubmitShareUpstream(s),
        forall|e: SubmitSharesError|
            plan.response == ShareResponse::Error(e) <==> outcome
                == OnNewShare::SendErrorDownstream(e),
{
    match outcome {
        OnNewShare::SendErrorDownstream(e) => SubmissionPlan {
            response: ShareResponse::Error(e),
            upstream: None,
        },
        OnNewShare::SendSubmitShareUpstream(s) => SubmissionPlan {
            response: ShareResponse::Accepted,
            upstream: Some(s),
        },
        _ => SubmissionPlan { response: ShareResponse::Accepted, upstream: None },
    }
}

/// A share goes to the pool exactly if it meets the target of the pool, and it goes there as it is.
pub proof fn law_pool_gets_every_share_for_it(outcome: OnNewShare, share: SubmitSharesExtended)
    ensures
        planned(outcome).upstream == Some(share) <==> outcome
            == OnNewShare::SendSubmitShareUpstream(share),
        outcome == OnNewShare::SendSubmitShareUpstream(share) ==> planned(outcome).response
            is Accepted,
{
}

/// A downstream is told of an error exactly if its share met one, and it is told of that very one.
/// Every other share is accepted.
pub proof fn law_errors_and_no_others_are_told(outcome: OnNewShare, error: SubmitSharesError)
    ensures
        planned(outcome).response == ShareResponse::Error(error) <==> outcome
            == OnNewShare::SendErrorDownstream(error),
        planned(outcome).response is Accepted <==> outcome !is SendErrorDownstream,
{
}

/// The outcomes that have a plan are an error, a share for the pool and a share for the downstream
/// only.
pub proof fn law_outcomes_with_a_plan(outcome: OnNewShare)
    ensures
        has_plan(outcome@) <==> (outcome is SendErrorDownstream || outcome
            is SendSubmitShareUpstream || outcome is ShareMeetDownstreamTarget),
{
}

/// The answer that reaches the downstream.
pub enum ShareReply {
    Error(SubmitSharesError),
    Success(SubmitSharesSuccess),
}

/// The answer to one accepted share.
pub open spec fn success_for(share: SubmitSharesStandard) -> SubmitSharesSuccess {
    SubmitSharesSuccess {
        channel_id: share.channel_id,
        last_sequence_number: share.sequence_number,
        new_submits_accepted_count: 1,
        new_shares_sum: 1,
    }
}

/// The answer to a share: the error it met, or that this one share was accepted.
pub open spec fn reply_of(share: SubmitSharesStandard, response: ShareResponse) -> ShareReply {
    match response {
        ShareResponse::Error(e) => ShareReply::Error(e),
        ShareResponse::Accepted => ShareReply::Success(success_for(share)),
    }
}

/// Turns the response to a share into the answer that reaches the downstream.
pub fn reply_to(share: &SubmitSharesStandard, response: ShareResponse) -> (reply: ShareReply)
    ensures
        reply == reply_of(*share, response),
        forall|e: SubmitSharesError|
            reply == ShareReply::Error(e) <==> response == ShareResponse::Error(e),
        response is Accepted ==> reply == ShareReply::Success(
            (SubmitSharesSuccess {
                channel_id: share.channel_id,
                last_sequence_number: share.sequence_number,
                new_submits_accepted_count: 1,
                new_shares_sum: 1,
            }),
        ),
{
    match response {
        ShareResponse::Error(e) => ShareReply::Error(e),
        ShareResponse::Accepted => ShareReply::Success(
            SubmitSharesSuccess {
                channel_id: share.channel_id,
                last_sequence_number: share.sequence_number,
                new_submits_accepted_count: 1,
                new_shares_sum: 1,
            },
        ),
    }
}

/// An error is answered as it is and nothing else is answered with one, and a share that is accepted
/// is answered as one share, for its own channel and sequence number.
pub proof fn law_reply_follows_the_response(
    share: SubmitSharesStandard,
    response: ShareResponse,
    error: SubmitSharesError,
)
    ensures
        reply_of(share, response) == ShareReply::Error(error) <==> response == ShareResponse::Error(
            error,
        ),
        response is Accepted ==> (reply_of(share, response) matches ShareReply::Success(success) && {
            &&& success.channel_id == share.channel_id
            &&& success.last_sequence_number == share.sequence_number
            &&& success.new_submits_accepted_count == 1
            &&& success.new_shares_sum == 1
        }),
{
}

/// Every share is answered for its own channel and its own sequence number. It is answered with an
/// error exactly if its outcome is one, and then nothing goes to the pool; what goes to the
/// pool is its own work.
pub proof fn law_share_is_answered(outcome: OnNewShare, share: SubmitSharesStandard)
    requires
        is_outcome_of(outcome@, share),
        has_plan(outcome@),
    ensures
        match reply_of(share, planned(outcome).response) {
            ShareReply::Error(e) => {
                &&& outcome is SendErrorDownstream
                &&& planned(outcome).upstream is None
                &&& e.channel_id == share.channel_id
                &&& e.sequence_number == share.sequence_number
            },
            ShareReply::Success(s) => {
                &&& outcome !is SendErrorDownstream
                &&& s.channel_id == share.channel_id
                &&& s.last_sequence_number == share.sequence_number
            },
        },
        planned(outcome).upstream matches Some(s) ==> {
            &&& s.sequence_number == share.sequence_number
            &&& s.job_id == share.job_id
            &&& s.nonce == share.nonce
            &&& s.ntime == share.ntime
            &&& s.version == share.version
        },
{
}

/// What becomes of a share follows from its outcome alone, whatever is in it: it goes to the pool, as
/// the factory wrote it, exactly if it meets the target of the pool; its downstream is told of an
/// error, and of that very one, exactly if it met one; and every other share is answered as one
/// accepted share, for its own channel and sequence number.
pub proof fn law_what_becomes_of_a_share(
    share: SubmitSharesStandard,
    outcome: OnNewShare,
    plan: SubmissionPlan,
    reply: ShareReply,
    upstream: SubmitSharesExtended,
    error: SubmitSharesError,
)
    requires
        call_ensures(plan_submission, (outcome,), plan),
        call_ensures(reply_to, (&share, plan.response), reply),
    ensures
        plan.upstream == Some(upstream) <==> outcome == OnNewShare::SendSubmitShareUpstream(
            upstream,
        ),
        reply == ShareReply::Error(error) <==> outcome == OnNewShare::SendErrorDownstream(error),
        outcome !is SendErrorDownstream ==> (reply matches ShareReply::Success(success) && {
            &&& success.channel_id == share.channel_id
            &&& success.last_sequence_number == share.sequence_number
            &&& success.new_submits_accepted_count == 1
            &&& success.new_shares_sum == 1
        }),
{
}

/// There is a plan for errors, for shares that meet the target of the pool and for those that meet
/// the target of the downstream only.
pub proof fn law_what_is_planned_for(outcome: OnNewShare, planned_for: bool)
    requires
        call_ensures(is_planned, (&outcome,), planned_for),
    ensures
        planned_for <==> outcome is SendErrorDownstream || outcome is SendSubmitShareUpstream
            || outcome is ShareMeetDownstreamTarget,
{
}

} // verus!
