use sv2_router::translator::downstream_sv2::{
    delivery_of_submit, Action, Delivery, DownstreamMessage, OpenAnswer,
    OpenExtendedMiningChannel, OpenReply, Session, SessionError,
};

fn open(min_extranonce_size: u16) -> DownstreamMessage<u8> {
    DownstreamMessage::OpenExtendedMiningChannel(OpenExtendedMiningChannel {
        request_id: 7,
        nominal_hash_rate: 1.5f32.to_bits(),
        min_extranonce_size,
    })
}

#[test]
fn a_channel_is_asked_for_as_requested() {
    let mut session = Session::new();
    match session.on_message(open(6), 8) {
        Action::Open(request) => {
            assert_eq!(request.request_id, 7);
            assert_eq!(f32::from_bits(request.nominal_hash_rate), 1.5);
            assert_eq!(request.min_extranonce_size, 6);
        }
        _ => panic!(),
    }
}

#[test]
fn the_fallback_stands_in_for_no_extranonce_size() {
    let mut session = Session::new();
    match session.on_message(open(0), 8) {
        Action::Open(request) => assert_eq!(request.min_extranonce_size, 8),
        _ => panic!(),
    }
}

#[test]
fn an_opened_channel_is_registered_and_its_responses_are_sent() {
    let session = Session::new();
    let answer = OpenAnswer::Answered { responses: vec!["success", "job"], channel_id: Some(3) };
    match session.on_opened(7, answer).unwrap() {
        OpenReply::Respond { channel_id, responses } => {
            assert_eq!(channel_id, Some(3));
            assert_eq!(responses, vec!["success", "job"]);
        }
        _ => panic!(),
    }
    assert!(session.close().is_empty());
}

#[test]
fn a_failed_request_is_refused() {
    let session = Session::new();
    match session.on_opened::<u8>(7, OpenAnswer::Failed).unwrap() {
        OpenReply::Refuse(refusal) => {
            assert_eq!(refusal.request_id, 7);
            assert_eq!(refusal.error_code, "unknown-user");
        }
        _ => panic!(),
    }
}

#[test]
fn a_poisoned_bridge_ends_the_session() {
    let mut session = Session::new();
    match session.on_opened::<u8>(7, OpenAnswer::Poisoned) {
        Err(e) => assert_eq!(e, SessionError::BridgeMutexPoisoned),
        Ok(_) => panic!(),
    }
    assert_eq!(session.on_registered(3, false), Err(SessionError::BridgeMutexPoisoned));
    assert!(session.close().is_empty());
}

#[test]
fn shares_go_to_the_bridge() {
    let mut session = Session::new();
    match session.on_message(DownstreamMessage::SubmitSharesExtended("share"), 8) {
        Action::Submit(share) => assert_eq!(share, "share"),
        _ => panic!(),
    }
    assert_eq!(session.on_submitted(Ok(Some("success"))), Some("success"));
    assert_eq!(session.on_submitted::<&str>(Ok(None)), None);
    assert_eq!(session.on_submitted::<&str>(Err(())), None);
}

#[test]
fn custom_jobs_are_refused() {
    let mut session = Session::new();
    let message = DownstreamMessage::<u8>::SetCustomMiningJob { channel_id: 3, request_id: 9 };
    match session.on_message(message, 8) {
        Action::Refuse(refusal) => {
            assert_eq!(refusal.channel_id, 3);
            assert_eq!(refusal.request_id, 9);
            assert_eq!(refusal.error_code, "invalid-mining-job-token");
        }
        _ => panic!(),
    }
}

#[test]
fn other_messages_are_ignored() {
    let mut session = Session::new();
    assert!(matches!(session.on_message(DownstreamMessage::<u8>::Other, 8), Action::Ignore));
}

#[test]
fn only_required_messages_have_to_arrive() {
    let session = Session::new();
    assert_eq!(session.on_sent(Delivery::Required, true), Ok(()));
    assert_eq!(session.on_sent(Delivery::BestEffort, false), Ok(()));
    assert_eq!(
        session.on_sent(Delivery::Required, false),
        Err(SessionError::AsyncChannelError)
    );
}

#[test]
fn responses_have_to_arrive_and_refusals_do_not() {
    let mut session = Session::new();
    let answer = OpenAnswer::Answered { responses: vec!["success"], channel_id: Some(3) };
    assert_eq!(session.on_opened(7, answer).unwrap().delivery(), Delivery::Required);
    let refused = session.on_opened::<u8>(7, OpenAnswer::Failed).unwrap();
    assert_eq!(refused.delivery(), Delivery::BestEffort);
    let job = DownstreamMessage::<u8>::SetCustomMiningJob { channel_id: 3, request_id: 9 };
    assert_eq!(session.on_message(job, 8).delivery(), Some(Delivery::BestEffort));
    assert_eq!(session.on_message(open(6), 8).delivery(), None);
    assert_eq!(session.on_message(DownstreamMessage::<u8>::Other, 8).delivery(), None);
    assert_eq!(delivery_of_submit(&Some("success")), Some(Delivery::Required));
    assert_eq!(delivery_of_submit::<u8>(&None), None);
}

#[test]
fn every_channel_is_unregistered_as_often_as_it_is_taken_up() {
    let mut session = Session::new();
    let mut unregistered = Vec::new();
    for (id, close) in [(1, false), (2, false), (1, true), (1, false), (5, true), (2, false)] {
        if close {
            let message = DownstreamMessage::<u8>::CloseChannel { channel_id: id };
            if let Action::Unregister(id) = session.on_message(message, 8) {
                unregistered.push(id);
            }
        } else {
            assert_eq!(session.on_registered(id, true), Ok(()));
        }
    }
    unregistered.extend(session.close());
    unregistered.sort();
    assert_eq!(unregistered, vec![1, 1, 2]);
}

#[test]
fn channels_that_were_opened_and_not_closed_are_unregistered_at_the_end() {
    let mut session = Session::new();
    for id in [1, 2, 3, 2] {
        assert_eq!(session.on_registered(id, true), Ok(()));
    }
    let close = |session: &mut Session, channel_id| {
        session.on_message(DownstreamMessage::<u8>::CloseChannel { channel_id }, 8)
    };
    assert!(matches!(close(&mut session, 2), Action::Unregister(2)));
    assert!(matches!(close(&mut session, 2), Action::Ignore));
    assert!(matches!(close(&mut session, 9), Action::Ignore));
    assert_eq!(session.on_registered(4, true), Ok(()));
    let mut left = session.close();
    left.sort();
    assert_eq!(left, vec![1, 3, 4]);
}
