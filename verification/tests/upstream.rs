use roles_logic_sv2::channel_logic::channel_factory::{
    ExtendedChannelKind, ProxyExtendedChannelFactory,
};
use roles_logic_sv2::mining_sv2::NewExtendedMiningJob;
use roles_logic_sv2::utils::{GroupId, Mutex};
use std::sync::Arc;
use sv2_router::sv2_proxy::upstream::opening::Opening;
use sv2_router::sv2_proxy::upstream::pending::{OpenChannelReq, PendingDownstreams, MAX_PENDING};
use sv2_router::sv2_proxy::upstream::shares::{
    is_planned, plan_submission, reply_to, OnNewShare, ShareReply, ShareResponse,
    SubmitSharesStandard,
};
use sv2_router::sv2_proxy::upstream::{
    proxy_extranonce1_len, ChannelPlan, Downstream, JobMessage, NewMiningJob,
    OpenExtendedMiningChannelSuccess, Relay, Route, SendTo, SetNewPrevHash, SubmitFailure, Upstream,
};

fn upstream() -> Upstream<u8> {
    Upstream::new(8, 0, 0)
}

fn opened(target: u8) -> OpenExtendedMiningChannelSuccess {
    OpenExtendedMiningChannelSuccess {
        channel_id: 42,
        target: vec![target; 32],
        extranonce_size: 16,
        extranonce_prefix: vec![7, 7, 7, 7],
    }
}

fn factory(plan: ChannelPlan) -> ProxyExtendedChannelFactory {
    let target: binary_sv2::U256<'static> = plan.upstream_target.try_into().unwrap();
    ProxyExtendedChannelFactory::new(
        Arc::new(Mutex::new(GroupId::new())),
        plan.extranonce,
        None,
        10.0,
        ExtendedChannelKind::Proxy { upstream_target: target.into() },
        None,
        String::new(),
        plan.channel_id,
    )
}

fn prev_hash(job_id: u32) -> SetNewPrevHash {
    SetNewPrevHash { channel_id: 42, job_id, prev_hash: [9; 32], min_ntime: 1000, nbits: 545259519 }
}

/// A job whose coinbase has room for an extranonce of twenty bytes.
fn job(job_id: u32) -> NewExtendedMiningJob<'static> {
    let mut prefix = vec![1, 0, 0, 0, 1];
    prefix.extend([0; 32]);
    prefix.extend([255; 4]);
    prefix.push(20);
    let mut suffix = vec![255; 4];
    suffix.push(1);
    suffix.extend([0; 8]);
    suffix.push(0);
    suffix.extend([0; 4]);
    NewExtendedMiningJob {
        channel_id: 42,
        job_id,
        min_ntime: binary_sv2::Sv2Option::new(None),
        version: 2,
        version_rolling_allowed: true,
        merkle_path: Vec::new().into(),
        coinbase_tx_prefix: prefix.try_into().unwrap(),
        coinbase_tx_suffix: suffix.try_into().unwrap(),
    }
}

/// An upstream whose channel is open, with a downstream of the given hash rate on channel 1, and
/// with a job to work on.
fn mining(target: u8, hash_rate: f32) -> Upstream<u8> {
    let mut upstream = upstream();
    let plan = upstream.handle_open_extended_mining_channel_success(opened(target));
    upstream.set_channel_factory(factory(plan));
    let factory = upstream.channel_factory.as_mut().unwrap();
    factory.add_standard_channel(5, hash_rate, true, 1).unwrap();
    factory.on_new_extended_mining_job(job(3)).unwrap();
    assert!(matches!(
        upstream.handle_set_new_prev_hash(prev_hash(3)),
        SendTo::RelaySetNewPrevHash(_)
    ));
    upstream
}

fn share(channel_id: u32) -> SubmitSharesStandard {
    SubmitSharesStandard {
        channel_id,
        sequence_number: 11,
        job_id: 3,
        nonce: 12,
        ntime: 1013,
        version: 14,
    }
}

#[test]
fn an_upstream_starts_without_a_channel() {
    let upstream = Upstream::new(8, 16, "pool");
    assert!(!upstream.is_open());
    assert_eq!(upstream.channel_id, None);
    assert_eq!(upstream.job_id, None);
    assert_eq!(upstream.min_extranonce_size, 8);
    assert_eq!(upstream.upstream_extranonce1_size, 16);
    assert_eq!(upstream.sender, "pool");
    assert!(upstream.recipients().is_empty());
}

#[test]
fn the_first_message_asks_for_a_channel() {
    let request = upstream().connect(8);
    assert_eq!(request.request_id, 0);
    assert_eq!(request.user_identity, "ABC");
    assert_eq!(f32::from_bits(request.nominal_hash_rate), 0.0);
    assert_eq!(request.max_target, vec![255; 32]);
    assert_eq!(request.min_extranonce_size, 8);
}

#[test]
fn the_pool_is_told_of_the_hash_rate() {
    let mut upstream = upstream();
    upstream.handle_open_extended_mining_channel_success(opened(255));
    let update = upstream.update_channel(3.5f32.to_bits());
    assert_eq!(update.channel_id, 42);
    assert_eq!(f32::from_bits(update.nominal_hash_rate), 3.5);
    assert_eq!(update.maximum_target, vec![255; 32]);
    let keep_alive = upstream.keep_alive();
    assert_eq!(keep_alive.channel_id, 42);
    assert_eq!(f32::from_bits(keep_alive.nominal_hash_rate), 0.0);
}

#[test]
fn upstreams_are_equal_by_channel() {
    let (mut a, mut b) = (Upstream::new(8, 0, 0u8), Upstream::new(4, 1, 9u8));
    assert!(a == b);
    a.handle_open_extended_mining_channel_success(opened(255));
    assert!(a != b);
    b.handle_open_extended_mining_channel_success(opened(0));
    assert!(a == b);
}

#[test]
fn the_proxy_gets_what_the_downstream_does_not_need() {
    assert_eq!(proxy_extranonce1_len(16, 8), 8);
    assert_eq!(proxy_extranonce1_len(8, 8), 0);
    assert_eq!(proxy_extranonce1_len(8, 0), 8);
}

#[test]
fn the_extranonce_is_shared_out() {
    let mut upstream = upstream();
    let plan = upstream.handle_open_extended_mining_channel_success(opened(3));
    assert_eq!(upstream.channel_id, Some(42));
    assert_eq!(upstream.extranonce_prefix, Some(vec![7; 4]));
    assert_eq!(upstream.upstream_extranonce1_size, 4);
    assert_eq!(plan.channel_id, 42);
    assert_eq!(plan.upstream_target, vec![3; 32]);
    assert_eq!(plan.extranonce.get_len(), 20);
    assert_eq!(plan.extranonce.get_range0_len(), 4);
    assert_eq!(plan.extranonce.get_prefix_len(), 12);
    assert_eq!(plan.extranonce.get_range2_len(), 8);
    let mut expected = vec![7; 4];
    expected.extend([0; 8]);
    assert_eq!(plan.extranonce.upstream_part().to_vec(), expected);
    assert!(!upstream.is_open());
}

#[test]
fn channels_that_do_not_fit_are_not_accepted() {
    let upstream = upstream();
    let message = |prefix: usize, extranonce_size: u16| OpenExtendedMiningChannelSuccess {
        channel_id: 1,
        target: vec![],
        extranonce_size,
        extranonce_prefix: vec![0; prefix],
    };
    assert!(upstream.is_accepted(&message(0, 8)));
    assert!(upstream.is_accepted(&message(24, 8)));
    assert!(upstream.is_accepted(&message(0, 32)));
    assert!(!upstream.is_accepted(&message(25, 8)));
    assert!(!upstream.is_accepted(&message(0, 33)));
    assert!(!upstream.is_accepted(&message(0, 7)));
    assert!(!upstream.is_accepted(&message(33, 8)));
    assert!(!upstream.is_accepted(&message(0, 65535)));
}

#[test]
fn requests_wait_for_the_channel_in_order() {
    let request = |id| OpenChannelReq {
        request_id: id,
        downstream_hash_rate: 0,
        is_header_only: true,
        id,
    };
    let mut pending = PendingDownstreams::new();
    assert!(pending.on_request(request(1), "one", false).is_empty());
    assert!(pending.on_request(request(2), "two", false).is_empty());
    let batch = pending.on_request(request(3), "three", true);
    let senders: Vec<&str> = batch.iter().map(|(_, sender)| *sender).collect();
    assert_eq!(senders, vec!["one", "two", "three"]);
    assert_eq!(batch[1].0, request(2));
    let batch = pending.on_request(request(4), "four", true);
    assert_eq!(batch, vec![(request(4), "four")]);
}

#[test]
fn the_newest_requests_are_kept() {
    let request = |id| OpenChannelReq {
        request_id: id,
        downstream_hash_rate: 0,
        is_header_only: true,
        id,
    };
    let mut pending = PendingDownstreams::new();
    let arrivals = MAX_PENDING as u32 + 3;
    for id in 0..arrivals {
        assert!(pending.on_request(request(id), id, false).is_empty());
    }
    let batch = pending.on_request(request(arrivals), arrivals, true);
    assert_eq!(MAX_PENDING, 10_000);
    assert_eq!(batch.len(), 10_001);
    let ids: Vec<u32> = batch.iter().map(|(request, _)| request.id).collect();
    assert_eq!(ids, (3..=arrivals).collect::<Vec<u32>>());
}

#[test]
fn shares_need_a_channel_and_a_job() {
    let mut upstream = upstream();
    assert!(matches!(upstream.on_submit(share(1)), Err(SubmitFailure::NoChannel)));
    let plan = upstream.handle_open_extended_mining_channel_success(opened(255));
    upstream.set_channel_factory(factory(plan));
    assert!(upstream.is_open());
    assert!(matches!(upstream.on_submit(share(1)), Err(SubmitFailure::Refused)));
}

#[test]
fn a_share_for_the_pool_is_sent_on_and_accepted() {
    let mut upstream = mining(255, 1.0);
    let outcome = upstream.on_submit(share(1)).ok().unwrap();
    assert!(is_planned(&outcome));
    let plan = plan_submission(outcome);
    let sent = plan.upstream.unwrap();
    assert_eq!(sent.channel_id, 42);
    assert_eq!(
        (sent.sequence_number, sent.job_id, sent.nonce, sent.ntime, sent.version),
        (11, 3, 12, 1013, 14)
    );
    assert_eq!(sent.extranonce.len(), 16);
    match reply_to(&share(1), plan.response) {
        ShareReply::Success(success) => {
            assert_eq!(success.channel_id, 1);
            assert_eq!(success.last_sequence_number, 11);
            assert_eq!(success.new_submits_accepted_count, 1);
            assert_eq!(success.new_shares_sum, 1);
        }
        ShareReply::Error(_) => panic!(),
    }
}

#[test]
fn a_share_for_the_downstream_only_is_accepted() {
    let mut upstream = mining(0, 0.0);
    let outcome = upstream.on_submit(share(1)).ok().unwrap();
    assert!(matches!(outcome, OnNewShare::ShareMeetDownstreamTarget));
    let plan = plan_submission(outcome);
    assert!(plan.upstream.is_none());
    assert!(matches!(plan.response, ShareResponse::Accepted));
}

fn refusal(mut upstream: Upstream<u8>, share: SubmitSharesStandard) -> String {
    let plan = plan_submission(upstream.on_submit(share).ok().unwrap());
    assert!(plan.upstream.is_none());
    match reply_to(&share, plan.response) {
        ShareReply::Error(error) => {
            assert_eq!(error.channel_id, share.channel_id);
            assert_eq!(error.sequence_number, 11);
            error.error_code
        }
        ShareReply::Success(_) => panic!(),
    }
}

#[test]
fn a_share_that_meets_no_target_is_refused() {
    assert_eq!(refusal(mining(0, 1e30), share(1)), "difficulty-too-low");
}

#[test]
fn a_share_of_no_channel_is_refused() {
    assert_eq!(refusal(mining(255, 1.0), share(8)), "invalid-channel-id");
}

#[test]
fn shares_that_no_proxy_sees_have_no_plan() {
    assert!(!is_planned(&OnNewShare::SendStandardShareUpstream));
    assert!(!is_planned(&OnNewShare::RelaySubmitShareUpstream));
    assert!(!is_planned(&OnNewShare::ShareMeetBitcoinTarget));
    assert!(is_planned(&OnNewShare::ShareMeetDownstreamTarget));
}

#[test]
fn a_new_block_is_built_on() {
    let upstream = mining(255, 1.0);
    let factory = upstream.channel_factory.as_ref().unwrap();
    assert_eq!(factory.last_prev_hash().unwrap().to_vec(), vec![9; 32]);
    assert_eq!(factory.last_min_ntime(), Some(1000));
    assert_eq!(factory.last_nbits(), Some(545259519));
}

#[test]
fn a_new_block_is_ignored_without_a_channel() {
    assert!(matches!(upstream().handle_set_new_prev_hash(prev_hash(1)), SendTo::Nothing));
}

#[test]
fn jobs_carry_the_id_of_the_pool() {
    let mut upstream = mining(255, 1.0);
    let standard = NewMiningJob {
        channel_id: 1,
        job_id: 900,
        min_ntime: Some(4),
        version: 5,
        merkle_root: vec![6; 32],
    };
    let messages =
        vec![(1, JobMessage::NewMiningJob(standard)), (2, JobMessage::Other("extended"))];
    let relays = match upstream.handle_new_extended_mining_job(33, Some(messages)) {
        SendTo::Multiple(relays) => relays,
        _ => panic!(),
    };
    assert_eq!(relays.len(), 2);
    match &relays[0] {
        Relay::ToRemote { downstream: 1, message: JobMessage::NewMiningJob(job) } => {
            assert_eq!(job.job_id, 33);
            assert_eq!(job.channel_id, 1);
            assert_eq!(job.min_ntime, Some(4));
            assert_eq!(job.version, 5);
            assert_eq!(job.merkle_root, vec![6; 32]);
        }
        _ => panic!(),
    }
    assert!(matches!(
        relays[1],
        Relay::ToRemote { downstream: 2, message: JobMessage::Other("extended") }
    ));
    assert_eq!(upstream.job_id, Some(33));
}

#[test]
fn jobs_are_taken_down_and_not_passed_on_without_a_channel() {
    let mut upstream = upstream();
    assert_eq!(upstream.job_id, None);
    let none: SendTo<JobMessage<u8>> = upstream.handle_new_extended_mining_job(33, None);
    assert!(matches!(none, SendTo::Nothing));
    assert_eq!(upstream.job_id, Some(33));
    upstream.set_job_id(34);
    assert_eq!(upstream.job_id, Some(34));
    assert_eq!(upstream.last_job_id, None);
}

#[test]
fn the_announced_job_is_taken_up_with_its_block() {
    // The job of the block was announced, besides another one.
    let mut upstream = mining(255, 1.0);
    let factory = upstream.channel_factory.as_mut().unwrap();
    factory.on_new_extended_mining_job(job(4)).unwrap();
    factory.on_new_extended_mining_job(job(5)).unwrap();
    upstream.handle_set_new_prev_hash(prev_hash(4));
    assert!(upstream.on_submit(share(1)).is_ok());
    // Nothing is announced any longer, so that the job stays.
    upstream.handle_set_new_prev_hash(prev_hash(5));
    assert!(upstream.on_submit(share(1)).is_ok());
    // Only another job was announced.
    let factory = upstream.channel_factory.as_mut().unwrap();
    factory.on_new_extended_mining_job(job(6)).unwrap();
    upstream.handle_set_new_prev_hash(prev_hash(7));
    assert!(matches!(upstream.on_submit(share(1)), Err(SubmitFailure::Refused)));
}

#[test]
fn kept_requests_are_opened_and_reached_by_their_own_senders() {
    let request = |id| OpenChannelReq {
        request_id: id,
        downstream_hash_rate: 0,
        is_header_only: true,
        id,
    };
    let mut upstream = Upstream::new(8, 0, 0);
    let mut pending = PendingDownstreams::new();
    let mut opened = Vec::new();
    let open_from = MAX_PENDING as u32 + 2;
    for id in 0..open_from + 3 {
        let batch = pending.on_request(request(id), id + 1, id >= open_from);
        assert_eq!(batch.is_empty(), id < open_from);
        let mut opening = Opening::new(batch);
        while let Some((request, _)) = opening.next() {
            opened.push(request.id);
            opening.on_opened(&mut upstream);
        }
    }
    assert_eq!(opened, (2..open_from + 3).collect::<Vec<u32>>());
    assert_eq!(upstream.hom_downstreams.len(), opened.len());
    for id in opened {
        assert_eq!(upstream.hom_downstreams[&id], id + 1);
    }
    assert!(!upstream.hom_downstreams.contains_key(&1));
}

#[test]
fn channels_are_opened_one_after_the_other() {
    let request = |request_id, id| OpenChannelReq {
        request_id,
        downstream_hash_rate: 0,
        is_header_only: true,
        id,
    };
    let mut upstream = Upstream::new(8, 0, "pool");
    upstream.register(9, "nine");
    let batch = vec![(request(1, 1), "one"), (request(2, 2), "two"), (request(3, 1), "three")];
    let mut opening = Opening::new(batch);
    let mut asked = Vec::new();
    while let Some((request, sender)) = opening.next() {
        asked.push((request.request_id, *sender));
        opening.on_opened(&mut upstream);
    }
    assert_eq!(asked, vec![(1, "one"), (2, "two"), (3, "three")]);
    assert_eq!(upstream.hom_downstreams.len(), 3);
    assert_eq!(upstream.hom_downstreams[&1], "three");
    assert_eq!(upstream.hom_downstreams[&2], "two");
    assert_eq!(upstream.hom_downstreams[&9], "nine");
}

#[test]
fn the_last_custom_job_is_remembered() {
    let mut upstream = upstream();
    let send_to: SendTo<u8> = upstream.handle_set_custom_mining_job_success(6);
    assert!(matches!(send_to, SendTo::Nothing));
    assert_eq!(upstream.last_job_id, Some(6));
}

#[test]
fn messages_are_routed() {
    let mut upstream = upstream();
    upstream.register(1, 10);
    upstream.register(2, 20);
    upstream.register(2, 21);
    assert_eq!(upstream.hom_downstreams.get(&2), Some(&21));
    assert!(matches!(upstream.route(Ok(SendTo::Respond('r'))), Route::ToUpstream('r')));
    match upstream.route(Ok(SendTo::RelaySetNewPrevHash('p'))) {
        Route::Broadcast { mut recipients, message } => {
            recipients.sort();
            assert_eq!(recipients, vec![1, 2]);
            assert_eq!(message, 'p');
        }
        _ => panic!(),
    }
    let relays = vec![
        Relay::ToRemote { downstream: 2, message: 'a' },
        Relay::ToRemote { downstream: 1, message: 'b' },
    ];
    match upstream.route(Ok(SendTo::Multiple(relays))) {
        Route::ToDownstreams(messages) => assert_eq!(messages, vec![(2, 'a'), (1, 'b')]),
        _ => panic!(),
    }
    assert!(matches!(upstream.route::<char>(Ok(SendTo::Nothing)), Route::Nothing));
    assert!(matches!(upstream.route::<char>(Err(())), Route::Stop));
}

#[test]
fn some_messages_have_no_route() {
    let mut upstream = upstream();
    upstream.register(1, 10);
    let to = |downstream| Relay::ToRemote { downstream, message: 'm' };
    assert!(upstream.is_routable(&Ok(SendTo::Multiple(vec![to(1)]))));
    assert!(!upstream.is_routable(&Ok(SendTo::Multiple(vec![to(1), to(2)]))));
    assert!(!upstream.is_routable(&Ok(SendTo::Multiple(vec![Relay::<char>::Other]))));
    assert!(!upstream.is_routable::<char>(&Ok(SendTo::Other)));
    assert!(upstream.is_routable::<char>(&Ok(SendTo::Nothing)));
    assert!(upstream.is_routable::<char>(&Err(())));
}

#[test]
fn downstreams_mine_on_headers() {
    let data = Downstream(4).get_downstream_mining_data();
    assert!(data.header_only);
    assert!(!data.work_selection);
    assert!(data.version_rolling);
}
