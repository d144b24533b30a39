use binary_sv2::to_bytes;
use roles_logic_sv2::common_messages_sv2::{Protocol, SetupConnection};
use roles_logic_sv2::mining_sv2::{OpenStandardMiningChannel, SubmitSharesStandard as Submit};
use sv2_router::messages::{CommonMessage, MiningMessage, SetupConnectionSuccess};
use sv2_router::net::IpAddr;
use sv2_router::sv2_proxy::upstream::pending::OpenChannelReq;
use sv2_router::sv2_proxy::upstream::shares::{
    ShareReply, ShareResponse, SubmitSharesError, SubmitSharesStandard,
};
use sv2_router::sv2_proxy::{
    Downstream, DownstreamStage, Handshake, Ids, Listener, StartAction,
};

fn setup_payload(protocol: Protocol, flags: u32) -> Vec<u8> {
    let empty = || "".to_string().try_into().unwrap();
    to_bytes(SetupConnection {
        protocol,
        min_version: 2,
        max_version: 2,
        flags,
        endpoint_host: empty(),
        endpoint_port: 0,
        vendor: empty(),
        hardware_version: empty(),
        firmware: empty(),
        device_id: empty(),
    })
    .unwrap()
}

fn open_payload() -> Vec<u8> {
    to_bytes(OpenStandardMiningChannel {
        request_id: 77u32.into(),
        user_identity: "bob".to_string().try_into().unwrap(),
        nominal_hash_rate: 2.5,
        max_target: vec![255u8; 32].try_into().unwrap(),
    })
    .unwrap()
}

fn share_payload() -> Vec<u8> {
    to_bytes(Submit { channel_id: 1, sequence_number: 2, job_id: 3, nonce: 4, ntime: 5, version: 6 })
        .unwrap()
}

#[test]
fn ids_count_up_from_zero() {
    let mut ids = Ids::new();
    assert_eq!(ids.next(), 0);
    assert_eq!(ids.next(), 1);
    assert_eq!(ids.next(), 2);
}

#[test]
fn channel_ids_count_up_from_one() {
    let mut listener = Listener::new();
    assert!(listener.has_ids());
    let handshakes = [
        (Handshake::Completed, Some(1)),
        (Handshake::Failed, None),
        (Handshake::Completed, Some(2)),
        (Handshake::TimedOut, None),
        (Handshake::Completed, Some(3)),
    ];
    for (handshake, id) in handshakes {
        assert_eq!(listener.on_handshake(handshake), id);
    }
}

#[test]
fn private_peers_are_dropped() {
    let listener = Listener::new();
    assert!(listener.admits(&IpAddr::V4(8, 8, 8, 8)));
    assert!(listener.admits(&IpAddr::V6(1)));
    assert!(!listener.admits(&IpAddr::V4(192, 168, 1, 1)));
}

/// What a new downstream is answered to its first frame.
fn setup(message_type: u8, payload: Vec<u8>) -> Option<StartAction> {
    let mut downstream = Downstream::new(9);
    assert_eq!(downstream.current_stage(), DownstreamStage::Setup);
    let action = downstream.start(message_type, payload);
    let stage =
        if action.is_some() { DownstreamStage::Open } else { DownstreamStage::Dropped };
    assert_eq!(downstream.current_stage(), stage);
    action
}

/// A downstream whose connection is set up.
fn connected() -> Downstream {
    let mut downstream = Downstream::new(9);
    assert!(downstream.start(0x00, setup_payload(Protocol::MiningProtocol, 0b1)).is_some());
    downstream
}

/// A downstream that has its channel.
fn mining() -> Downstream {
    let mut downstream = connected();
    assert!(downstream.start(0x10, open_payload()).is_some());
    assert_eq!(downstream.current_stage(), DownstreamStage::Mining);
    downstream
}

const SHARE: SubmitSharesStandard = SubmitSharesStandard {
    channel_id: 1,
    sequence_number: 2,
    job_id: 3,
    nonce: 4,
    ntime: 5,
    version: 6,
};

#[test]
fn a_setup_for_mining_with_standard_jobs_is_accepted() {
    let accepted = StartAction::Answer(SetupConnectionSuccess { used_version: 2, flags: 0b110 });
    assert_eq!(setup(0x00, setup_payload(Protocol::MiningProtocol, 0b1)), Some(accepted));
    assert_eq!(setup(0x00, setup_payload(Protocol::MiningProtocol, 0b111)), Some(accepted));
}

#[test]
fn any_other_setup_is_refused() {
    assert_eq!(setup(0x00, setup_payload(Protocol::MiningProtocol, 0b110)), None);
    assert_eq!(setup(0x00, setup_payload(Protocol::JobDeclarationProtocol, 0b1)), None);
    assert_eq!(setup(0x00, vec![]), None);
    assert_eq!(setup(0x10, setup_payload(Protocol::MiningProtocol, 0b1)), None);
    assert_eq!(setup(0x10, open_payload()), None);
    assert_eq!(Downstream::accept_setup(CommonMessage::Other), None);
    let flags = CommonMessage::SetupConnection { protocol: 0, flags: 0xffff_fffe };
    assert_eq!(Downstream::accept_setup(flags), None);
    let protocol = CommonMessage::SetupConnection { protocol: 3, flags: 1 };
    assert_eq!(Downstream::accept_setup(protocol), None);
}

#[test]
fn the_request_for_a_channel_is_read() {
    let expected = OpenChannelReq {
        request_id: 77,
        downstream_hash_rate: 2.5f32.to_bits(),
        is_header_only: true,
        id: 9,
    };
    let action = connected().start(0x10, open_payload());
    assert_eq!(action, Some(StartAction::Open(expected)));
}

#[test]
fn a_downstream_that_asks_for_no_channel_is_dropped() {
    let setup = setup_payload(Protocol::MiningProtocol, 0b1);
    for (message_type, payload) in [(0x10, vec![1]), (0x1a, share_payload()), (0x00, setup)] {
        let mut downstream = connected();
        assert_eq!(downstream.start(message_type, payload), None);
        assert_eq!(downstream.current_stage(), DownstreamStage::Dropped);
    }
    assert_eq!(Downstream::accept_open(MiningMessage::Other, 9), None);
}

#[test]
fn shares_are_read_and_answered() {
    let mut downstream = mining();
    assert_eq!(downstream.down_to_up(0x1a, share_payload()), Some(SHARE));
    assert_eq!(downstream.current_stage(), DownstreamStage::Submitting(SHARE));
    match downstream.on_response(ShareResponse::Accepted) {
        ShareReply::Success(success) => {
            assert_eq!(success.channel_id, 1);
            assert_eq!(success.last_sequence_number, 2);
            assert_eq!(success.new_submits_accepted_count, 1);
            assert_eq!(success.new_shares_sum, 1);
        }
        ShareReply::Error(_) => panic!(),
    }
    assert_eq!(downstream.current_stage(), DownstreamStage::Mining);
    assert_eq!(downstream.down_to_up(0x1a, share_payload()), Some(SHARE));
    let error = SubmitSharesError {
        channel_id: 1,
        sequence_number: 2,
        error_code: "difficulty-too-low".to_string(),
    };
    match downstream.on_response(ShareResponse::Error(error)) {
        ShareReply::Error(error) => {
            assert_eq!((error.channel_id, error.sequence_number), (1, 2));
            assert_eq!(error.error_code, "difficulty-too-low");
        }
        ShareReply::Success(_) => panic!(),
    }
}

#[test]
fn a_downstream_that_sends_no_share_is_dropped() {
    for (message_type, payload) in [(0x1a, vec![]), (0x10, open_payload())] {
        let mut downstream = mining();
        assert_eq!(downstream.down_to_up(message_type, payload), None);
        assert_eq!(downstream.current_stage(), DownstreamStage::Dropped);
    }
    assert_eq!(Downstream::accept_share(MiningMessage::Other), None);
}

#[test]
fn frames_of_any_kind_are_taken_without_harm() {
    for message_type in 0..=255u8 {
        for len in 0..80usize {
            for fill in [0u8, 1, 7, 32, 127, 255] {
                let payload = vec![fill; len];
                let action = setup(message_type, payload);
                assert!(action.is_none() || message_type == 0x00);
            }
        }
    }
    let mut payload = share_payload();
    while payload.pop().is_some() {
        assert_eq!(mining().down_to_up(0x1a, payload.clone()), None);
        assert_eq!(connected().start(0x10, payload.clone()), None);
    }
}
