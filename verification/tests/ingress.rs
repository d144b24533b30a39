use binary_sv2::to_bytes;
use roles_logic_sv2::common_messages_sv2::{
    Protocol, SetupConnection, SetupConnectionSuccess as SetupSuccess,
};
use roles_logic_sv2::mining_sv2::SubmitSharesStandard;
use roles_logic_sv2::parsers::Mining;
use sv2_router::flow::{after_send, Flow};
use sv2_router::ingress::sv2_ingress::{
    answer_setup, handle_setup_connection, pass_on, relay_from_downstream, relay_to_downstream,
    Incoming, IngressMessage, Outgoing,
};
use sv2_router::messages::{CommonMessage, SetupConnectionSuccess};

fn setup_payload(protocol: Protocol, flags: u32) -> Vec<u8> {
    let empty = || "".to_string().try_into().unwrap();
    to_bytes(SetupConnection {
        protocol,
        min_version: 2,
        max_version: 2,
        flags,
        endpoint_host: empty(),
        endpoint_port: 0,
        vendor: empty(),
        hardware_version: empty(),
        firmware: empty(),
        device_id: empty(),
    })
    .unwrap()
}

fn share_payload() -> Vec<u8> {
    to_bytes(SubmitSharesStandard {
        channel_id: 1,
        sequence_number: 2,
        job_id: 3,
        nonce: 4,
        ntime: 5,
        version: 6,
    })
    .unwrap()
}

fn frame(extension: u16, message_type: u8, payload: Vec<u8>) -> Incoming {
    Incoming::Frame { extension, message_type, payload }
}

#[test]
fn a_setup_is_answered_with_its_own_flags() {
    for protocol in [Protocol::MiningProtocol, Protocol::TemplateDistributionProtocol] {
        let answer = handle_setup_connection(frame(0, 0x00, setup_payload(protocol, 0b101)));
        assert_eq!(answer, Some(SetupConnectionSuccess { used_version: 2, flags: 0b101 }));
    }
}

#[test]
fn anything_else_is_passed_over_during_setup() {
    let setup = || setup_payload(Protocol::MiningProtocol, 1);
    let success = to_bytes(SetupSuccess { used_version: 2, flags: 0 }).unwrap();
    for incoming in [
        Incoming::NotSv2,
        Incoming::NoHeader,
        frame(0, 0x01, success),
        frame(0, 0x00, vec![1, 2, 3]),
        frame(0, 0x00, vec![]),
        frame(0, 0xff, setup()),
        frame(0, 0x1a, share_payload()),
        frame(32, 0x00, setup()),
        frame(7, 0x00, setup()),
    ] {
        assert_eq!(handle_setup_connection(incoming), None);
    }
}

#[test]
fn answers_depend_on_the_message_alone() {
    let setup = CommonMessage::SetupConnection { protocol: 2, flags: 9 };
    assert_eq!(
        answer_setup(&IngressMessage::Common(setup)),
        Some(SetupConnectionSuccess { used_version: 2, flags: 9 })
    );
    assert_eq!(answer_setup(&IngressMessage::Common(CommonMessage::Other)), None);
    assert_eq!(answer_setup(&IngressMessage::Unsupported), None);
    assert_eq!(answer_setup(&IngressMessage::Invalid), None);
}

#[test]
fn mining_messages_are_passed_on() {
    match relay_from_downstream(frame(0x8000, 0x1a, share_payload())) {
        Some(Mining::SubmitSharesStandard(m)) => {
            assert_eq!(
                (m.channel_id, m.sequence_number, m.job_id, m.nonce, m.ntime, m.version),
                (1, 2, 3, 4, 5, 6)
            );
        }
        _ => panic!(),
    }
}

#[test]
fn anything_else_is_not_passed_on() {
    for incoming in [
        Incoming::NotSv2,
        Incoming::NoHeader,
        frame(0, 0x00, setup_payload(Protocol::MiningProtocol, 1)),
        frame(0, 0x1a, vec![]),
        frame(0, 0xff, share_payload()),
        frame(0, 0x50, vec![0; 5]),
        frame(32, 0x05, vec![0; 40]),
        frame(0x8020, 0x08, vec![0; 40]),
        frame(9, 0x1a, share_payload()),
    ] {
        assert!(relay_from_downstream(incoming).is_none());
    }
    assert!(pass_on(IngressMessage::Common(CommonMessage::Other)).is_none());
    assert!(pass_on(IngressMessage::Unsupported).is_none());
    assert!(pass_on(IngressMessage::Invalid).is_none());
}

#[test]
fn only_a_failed_send_ends_the_relay() {
    assert_eq!(relay_to_downstream(Outgoing::NotEncoded), Flow::Continue);
    assert_eq!(relay_to_downstream(Outgoing::Handed { sent: true }), Flow::Continue);
    assert_eq!(relay_to_downstream(Outgoing::Handed { sent: false }), Flow::Stop);
    assert_eq!(after_send(true), Flow::Continue);
    assert_eq!(after_send(false), Flow::Stop);
}

#[test]
fn frames_of_any_kind_are_read_without_harm() {
    for message_type in 0..=255u8 {
        for len in 0..80usize {
            for fill in [0u8, 1, 7, 32, 127, 255] {
                let payload = vec![fill; len];
                for extension in [0u16, 0x8000, 32, 0x8020, 9] {
                    let setup = handle_setup_connection(frame(
                        extension,
                        message_type,
                        payload.clone(),
                    ));
                    let mining =
                        relay_from_downstream(frame(extension, message_type, payload.clone()));
                    assert!(setup.is_none() || mining.is_none());
                }
            }
        }
    }
}
