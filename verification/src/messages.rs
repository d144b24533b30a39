//! Messages of the connection and mining protocols that the router reads or writes itself.
use roles_logic_sv2::parsers::{CommonMessages, Mining};
use vstd::prelude::*;

use crate::sv2_proxy::upstream::shares::SubmitSharesStandard;

verus! {

/// The number that stands for the mining protocol in a `SetupConnection`.
pub const MINING_PROTOCOL: u8 = 0;

/// A message about the connection, as far as the router reads it.
#[derive(Clone, Copy, Debug, PartialEq, Eq, Structural)]
pub enum CommonMessage {
    SetupConnection { protocol: u8, flags: u32 },
    Other,
}

/// The answer to a `SetupConnection` that is accepted.
#[derive(Clone, Copy, Debug, PartialEq, Eq, Structural)]
pub struct SetupConnectionSuccess {
    pub used_version: u16,
    pub flags: u32,
}

/// A mining message of a downstream with standard channels, as far as the router reads it.
#[derive(Clone, Copy, Debug, PartialEq, Eq, Structural)]
pub enum MiningMessage {
    OpenStandardMiningChannel {
        request_id: u32,
        /// The bits of the nominal hash rate.
        nominal_hash_rate: u32,
    },
    SubmitSharesStandard(SubmitSharesStandard),
    Other,
}

/// The refusal of a request for a channel.
pub struct OpenMiningChannelError {
    pub request_id: u32,
    pub error_code: String,
}

/// Calls `OpenMiningChannelError::new_unknown_user` of `mining_sv2`: the refusal for the given
/// request, with the code `unknown-user`.
#[verifier::external_body]
pub(crate) fn unknown_user(request_id: u32) -> (refusal: OpenMiningChannelError)
    ensures
        refusal.request_id == request_id,
        refusal.error_code@ == "unknown-user"@,
{
    let e = roles_logic_sv2::mining_sv2::OpenMiningChannelError::new_unknown_user(request_id);
    OpenMiningChannelError {
        request_id: e.request_id,
        error_code: String::from_utf8_lossy(e.error_code.inner_as_ref()).into_owned(),
    }
}

/// What a frame of the given type says about the connection: nothing where the type is unknown or
/// the payload does not decode.
pub uninterp spec fn common_message(message_type: u8, payload: Seq<u8>) -> Option<CommonMessage>;

/// Calls the conversion from a frame to `CommonMessages` of `roles_logic_sv2`, a function of the
/// type of the frame and its payload, and takes over what the router reads of the result.
#[verifier::external_body]
pub(crate) fn parse_common(message_type: u8, mut payload: Vec<u8>) -> (message: Option<
    CommonMessage,
>)
    ensures
        message == common_message(message_type, payload@),
{
    match CommonMessages::try_from((message_type, &mut payload[..])).ok()? {
        CommonMessages::SetupConnection(m) => Some(
            CommonMessage::SetupConnection { protocol: m.protocol as u8, flags: m.flags },
        ),
        _ => Some(CommonMessage::Other),
    }
}

/// What a frame of the given type says about mining: nothing where the type is unknown or the
/// payload does not decode.
pub uninterp spec fn mining_message(message_type: u8, payload: Seq<u8>) -> Option<MiningMessage>;

/// Calls the conversion from a frame to `Mining` of `roles_logic_sv2`, a function of the type of
/// the frame and its payload, and takes over what the router reads of the result.
#[verifier::external_body]
pub(crate) fn parse_mining(message_type: u8, mut payload: Vec<u8>) -> (message: Option<
    MiningMessage,
>)
    ensures
        message == mining_message(message_type, payload@),
{
    Some(match Mining::try_from((message_type, &mut payload[..])).ok()? {
        Mining::OpenStandardMiningChannel(m) => MiningMessage::OpenStandardMiningChannel {
            request_id: (&m.request_id).into(), nominal_hash_rate: m.nominal_hash_rate.to_bits(),
        },
        Mining::SubmitSharesStandard(m) => MiningMessage::SubmitSharesStandard(SubmitSharesStandard {
            channel_id: m.channel_id, sequence_number: m.sequence_number, job_id: m.job_id,
            nonce: m.nonce, ntime: m.ntime, version: m.version,
        }),
        _ => MiningMessage::Other,
    })
}

/// `has_requires_std_job` of `common_messages_sv2`: whether the lowest bit of the flags is set.
pub assume_specification[ roles_logic_sv2::common_messages_sv2::has_requires_std_job ](
    flags: u32,
) -> (required: bool)
    ensures
        required == (flags % 2 == 1),
;

} // verus!
