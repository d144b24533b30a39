//! Downstreams that ask for a channel before the pool has opened one.
use std::collections::VecDeque;
use vstd::prelude::*;

verus! {

/// How many requests are kept while the pool's channel is not open.
pub const MAX_PENDING: usize = 10_000;

/// The request of a downstream for a standard channel.
#[derive(Clone, Copy, Debug, PartialEq, Eq, Structural)]
pub struct OpenChannelReq {
    pub request_id: u32,
    /// The bits of the hash rate that the downstream named.
    pub downstream_hash_rate: u32,
    pub is_header_only: bool,
    pub id: u32,
}

/// The last elements of a sequence: all of them, or as many as the limit allows.
pub open spec fn newest<A>(s: Seq<A>, limit: nat) -> Seq<A> {
    if s.len() <= limit {
        s
    } else {
        s.skip(s.len() - limit)
    }
}

/// What is pending after requests arrived, one after the other, at a queue that was empty.
pub open spec fn pending_after<A>(arrivals: Seq<A>) -> Seq<A>
    decreases arrivals.len(),
{
    if arrivals.len() == 0 {
        Seq::empty()
    } else {
        newest(pending_after(arrivals.drop_last()).push(arrivals.last()), MAX_PENDING as nat)
    }
}

/// However many requests arrived, the newest of them are pending, in the order of their arrival,
/// and never more than the limit.
pub proof fn law_newest_are_kept<A>(arrivals: Seq<A>)
    ensures
        pending_after(arrivals) == newest(arrivals, MAX_PENDING as nat),
        pending_after(arrivals).len() <= MAX_PENDING,
    decreases arrivals.len(),
{
    if arrivals.len() > 0 {
        law_newest_are_kept(arrivals.drop_last());
        assert(pending_after(arrivals) =~= newest(arrivals, MAX_PENDING as nat));
    }
}

/// The requests to open channels for when another one arrives: none while the pool's channel is not
/// open, and otherwise those that waited and then this one.
pub open spec fn batch_at<A>(waiting: Seq<A>, request: A, channel_open: bool) -> Seq<A> {
    if channel_open {
        waiting.push(request)
    } else {
        Seq::empty()
    }
}

/// The requests that wait after another one arrived: none once the pool's channel is open, and
/// otherwise the newest, this one among them.
pub open spec fn waiting_after<A>(waiting: Seq<A>, request: A, channel_open: bool) -> Seq<A> {
    if channel_open {
        Seq::empty()
    } else {
        newest(waiting.push(request), MAX_PENDING as nat)
    }
}

/// The newest elements are the last ones, in their order: as many as there are, up to the limit.
pub proof fn law_newest_are_the_last<A>(s: Seq<A>, limit: nat)
    ensures
        newest(s, limit).len() == if s.len() <= limit {
            s.len()
        } else {
            limit
        },
        forall|i: int|
            0 <= i < newest(s, limit).len() ==> #[trigger] newest(s, limit)[i] == s[s.len()
                - newest(s, limit).len() + i],
{
}

/// A request that arrives before the pool's channel is open opens no channel: it waits behind those
/// that wait, of which the oldest makes room for it where there are as many as can wait.
pub proof fn law_requests_wait_while_closed<A>(waiting: Seq<A>, request: A)
    requires
        waiting.len() <= 10_000,
    ensures
        batch_at(waiting, request, false).len() == 0,
        waiting_after(waiting, request, false).last() == request,
        waiting.len() < 10_000 ==> waiting_after(waiting, request, false) == waiting.push(request),
        waiting.len() == 10_000 ==> waiting_after(waiting, request, false) == waiting.skip(1).push(
            request,
        ),
{
    assert(waiting.len() == 10_000 ==> waiting_after(waiting, request, false) =~= waiting.skip(
        1,
    ).push(request));
}

/// A request that arrives once the pool's channel is open opens channels for all that waited, in
/// their order, and then for itself. Nobody waits any longer.
pub proof fn law_requests_open_channels_once_open<A>(waiting: Seq<A>, request: A)
    ensures
        waiting_after(waiting, request, true).len() == 0,
        batch_at(waiting, request, true).len() == waiting.len() + 1,
        forall|i: int|
            0 <= i < waiting.len() ==> #[trigger] batch_at(waiting, request, true)[i] == waiting[i],
        batch_at(waiting, request, true).last() == request,
{
}

/// What came of a run of requests, each with whether the pool's channel was open when it arrived:
/// those that channels were opened for, in order, and those that wait.
pub open spec fn after_requests<A>(requests: Seq<(A, bool)>) -> (Seq<A>, Seq<A>)
    decreases requests.len(),
{
    if requests.len() == 0 {
        (Seq::empty(), Seq::empty())
    } else {
        let (opened, waiting) = after_requests(requests.drop_last());
        let (request, channel_open) = requests.last();
        (
            opened + batch_at(waiting, request, channel_open),
            waiting_after(waiting, request, channel_open),
        )
    }
}

/// What came of a run of requests is kept up by every request: a queue in which those wait that the
/// run left waiting opens channels for, and keeps, just what the longer run does.
pub proof fn law_request_continues_a_run<A>(
    requests: Seq<(A, bool)>,
    request: A,
    channel_open: bool,
)
    ensures
        after_requests(requests.push((request, channel_open))) == (
            after_requests(requests).0 + batch_at(
                after_requests(requests).1,
                request,
                channel_open,
            ),
            waiting_after(after_requests(requests).1, request, channel_open),
        ),
{
    assert(requests.push((request, channel_open)).drop_last() =~= requests);
}

/// As long as the pool's channel is not open, no channel is opened, and the requests wait.
proof fn lemma_closed<A>(requests: Seq<(A, bool)>)
    requires
        forall|i: int| 0 <= i < requests.len() ==> !(#[trigger] requests[i]).1,
    ensures
        after_requests(requests) == (
            Seq::<A>::empty(),
            pending_after(requests.map_values(|r: (A, bool)| r.0)),
        ),
    decreases requests.len(),
{
    let arrivals = requests.map_values(|r: (A, bool)| r.0);
    if requests.len() > 0 {
        let before = requests.drop_last();
        assert forall|i: int| 0 <= i < before.len() implies !(#[trigger] before[i]).1 by {
            assert(before[i] == requests[i]);
        }
        lemma_closed(before);
        assert(!requests[requests.len() - 1].1);
        assert(after_requests(requests).0 =~= Seq::<A>::empty());
        assert(before.map_values(|r: (A, bool)| r.0) =~= arrivals.drop_last());
    }
}

/// Once the pool's channel is open, which it stays, channels are opened for the newest of the
/// requests that came before and for every one that comes after, for each once and in the order
/// of their arrival. Nobody waits any longer.
pub proof fn law_nobody_waits_once_open<A>(requests: Seq<(A, bool)>, open_from: int)
    requires
        0 <= open_from < requests.len(),
        forall|i: int|
            0 <= i < requests.len() ==> (#[trigger] requests[i]).1 == (i >= open_from),
    ensures
        ({
            let arrivals = requests.map_values(|r: (A, bool)| r.0);
            after_requests(requests) == (
                newest(arrivals.take(open_from), MAX_PENDING as nat) + arrivals.skip(open_from),
                Seq::<A>::empty(),
            )
        }),
    decreases requests.len(),
{
    let arrivals = requests.map_values(|r: (A, bool)| r.0);
    let last = requests.len() - 1;
    let before = requests.drop_last();
    let earlier = before.map_values(|r: (A, bool)| r.0);
    assert(requests[last].1);
    assert(earlier =~= arrivals.drop_last());
    assert forall|i: int| 0 <= i < before.len() implies (#[trigger] before[i]).1 == (i
        >= open_from) by {
        assert(before[i] == requests[i]);
    }
    if open_from < last {
        law_nobody_waits_once_open(before, open_from);
        assert(earlier.take(open_from) =~= arrivals.take(open_from));
    } else {
        lemma_closed(before);
        law_newest_are_kept(earlier);
        assert(earlier =~= arrivals.take(open_from));
    }
    assert(after_requests(requests).0 =~= newest(arrivals.take(open_from), MAX_PENDING as nat)
        + arrivals.skip(open_from));
}

/// The requests that wait for the pool's channel, the oldest first, each with the sender that
/// reaches its downstream.
pub struct PendingDownstreams<S> {
    waiting: VecDeque<(OpenChannelReq, S)>,
}

impl<S> View for PendingDownstreams<S> {
    type V = Seq<(OpenChannelReq, S)>;

    closed spec fn view(&self) -> Seq<(OpenChannelReq, S)> {
        self.waiting@
    }
}

impl<S> PendingDownstreams<S> {
    /// Whether the limit is kept.
    pub open spec fn wf(&self) -> bool {
        self@.len() <= MAX_PENDING
    }

    /// A queue in which nothing waits.
    pub fn new() -> (pending: Self)
        ensures
            pending.wf(),
            pending@ == Seq::<(OpenChannelReq, S)>::empty(),
    {
        PendingDownstreams { waiting: VecDeque::with_capacity(MAX_PENDING) }
    }

    /// Takes a request, and returns those to open channels for now, in order. While the pool's
    /// channel is not open there are none, and the request waits, in place of the oldest one where
    /// the queue is full; once it is open they are the ones that waited and then this one.
    pub fn on_request(&mut self, request: OpenChannelReq, sender: S, channel_open: bool) -> (batch:
        Vec<(OpenChannelReq, S)>)
        requires
            old(self).wf(),
        ensures
            final(self).wf(),
            batch@ == batch_at(old(self)@, (request, sender), channel_open),
            final(self)@ == waiting_after(old(self)@, (request, sender), channel_open),
    {
        let mut batch: Vec<(OpenChannelReq, S)> = Vec::new();
        if channel_open {
            let ghost all = self@;
            proof {
                assert(all =~= batch@ + self.waiting@);
            }
            while self.waiting.len() > 0
                invariant
                    all == batch@ + self.waiting@,
                decreases self.waiting@.len(),
            {
                match self.waiting.pop_front() {
                    Some(waited) => {
                        batch.push(waited);
                        proof {
                            assert(all =~= batch@ + self.waiting@);
                        }
                    },
                    None => {},
                }
            }
            proof {
                assert(all =~= batch@);
            }
            batch.push((request, sender));
        } else {
            if self.waiting.len() >= MAX_PENDING {
                let _ = self.waiting.pop_front();
            }
            self.waiting.push_back((request, sender));
            proof {
                assert(self@ =~= newest(old(self)@.push((request, sender)), MAX_PENDING as nat));
            }
        }
        batch
    }
}

/// A request that comes before the pool's channel is open opens none, and waits behind those that
/// wait, of which the oldest makes room where there are as many as can wait. The request that comes
/// next, once the channel is open, opens channels for all that waited, in their order, and then for
/// itself.
pub proof fn law_requests_before_and_after<S>(
    pending: &mut PendingDownstreams<S>,
    request: OpenChannelReq,
    sender: S,
    batch: Vec<(OpenChannelReq, S)>,
    later: &mut PendingDownstreams<S>,
    next_request: OpenChannelReq,
    next_sender: S,
    next_batch: Vec<(OpenChannelReq, S)>,
)
    requires
        old(pending)@.len() <= 10_000,
        call_ensures(
            PendingDownstreams::<S>::on_request,
            (pending, request, sender, false),
            batch,
        ),
        *old(later) == *final(pending),
        call_ensures(
            PendingDownstreams::<S>::on_request,
            (later, next_request, next_sender, true),
            next_batch,
        ),
    ensures
        batch@.len() == 0,
        old(pending)@.len() < 10_000 ==> next_batch@ == old(pending)@.push((request, sender)).push(
            (next_request, next_sender),
        ),
        old(pending)@.len() == 10_000 ==> next_batch@ == old(pending)@.skip(1).push(
            (request, sender),
        ).push((next_request, next_sender)),
        final(later)@.len() == 0,
{
    law_requests_wait_while_closed(old(pending)@, (request, sender));
}

/// Nobody waits in a new queue.
pub proof fn law_new_queue<S>(pending: PendingDownstreams<S>)
    requires
        call_ensures(PendingDownstreams::<S>::new, (), pending),
    ensures
        pending@.len() == 0,
{
}

} // verus!
