//! The channels that are opened for downstreams, one after the other, once the pool's channel is
//! open.
use std::collections::VecDeque;
use vstd::prelude::*;

use crate::sv2_proxy::upstream::pending::{OpenChannelReq, MAX_PENDING};
use crate::sv2_proxy::upstream::Upstream;

verus! {

/// How the downstreams are reached after channels were opened for a run of requests.
pub open spec fn reached_after<S>(
    downstreams: Map<u32, S>,
    batch: Seq<(OpenChannelReq, S)>,
) -> Map<u32, S>
    decreases batch.len(),
{
    if batch.len() == 0 {
        downstreams
    } else {
        reached_after(downstreams, batch.drop_last()).insert(batch.last().0.id, batch.last().1)
    }
}

/// Every downstream that a channel was opened for is reached by the sender of its own request, and
/// by that of the last one where several have the same id.
pub proof fn law_each_by_its_own_sender<S>(
    downstreams: Map<u32, S>,
    batch: Seq<(OpenChannelReq, S)>,
    i: int,
)
    requires
        0 <= i < batch.len(),
        forall|j: int| i < j < batch.len() ==> (#[trigger] batch[j]).0.id != batch[i].0.id,
    ensures
        reached_after(downstreams, batch).contains_key(batch[i].0.id),
        reached_after(downstreams, batch)[batch[i].0.id] == batch[i].1,
    decreases batch.len(),
{
    let last = batch.len() - 1;
    if i < last {
        let before = batch.drop_last();
        assert forall|j: int| i < j < before.len() implies (#[trigger] before[j]).0.id
            != before[i].0.id by {
            assert(before[j] == batch[j]);
        }
        law_each_by_its_own_sender(downstreams, before, i);
        assert(batch[last].0.id != batch[i].0.id);
    }
}

/// A downstream that no channel was opened for is reached as before, or not at all.
pub proof fn law_others_as_before<S>(
    downstreams: Map<u32, S>,
    batch: Seq<(OpenChannelReq, S)>,
    id: u32,
)
    requires
        forall|j: int| 0 <= j < batch.len() ==> (#[trigger] batch[j]).0.id != id,
    ensures
        reached_after(downstreams, batch).contains_key(id) == downstreams.contains_key(id),
        downstreams.contains_key(id) ==> reached_after(downstreams, batch)[id] == downstreams[id],
    decreases batch.len(),
{
    if batch.len() > 0 {
        let before = batch.drop_last();
        assert forall|j: int| 0 <= j < before.len() implies (#[trigger] before[j]).0.id != id by {
            assert(before[j] == batch[j]);
        }
        law_others_as_before(downstreams, before, id);
        assert(batch[batch.len() - 1].0.id != id);
    }
}

/// Opening channels for one run of requests and then for another is opening them for both.
pub proof fn law_runs_add_up<S>(
    downstreams: Map<u32, S>,
    first: Seq<(OpenChannelReq, S)>,
    second: Seq<(OpenChannelReq, S)>,
)
    ensures
        reached_after(reached_after(downstreams, first), second) == reached_after(
            downstreams,
            first + second,
        ),
    decreases second.len(),
{
    if second.len() == 0 {
        assert(first + second =~= first);
    } else {
        assert((first + second).drop_last() =~= first + second.drop_last());
        law_runs_add_up(downstreams, first, second.drop_last());
    }
}

/// Once the pool's channel is open, which it stays, channels are opened for the requests that were
/// kept, each once and in the order of their arrival, and no others: those that came before it
/// opened, but for the oldest where there are more than can wait, and all that come after. Nobody
/// waits any longer, and every downstream whose request was kept is reached by the sender of that
/// request, unless a later one has the same id.
pub proof fn law_kept_requests_are_opened<S>(
    downstreams: Map<u32, S>,
    requests: Seq<((OpenChannelReq, S), bool)>,
    open_from: int,
    i: int,
)
    requires
        0 <= open_from < requests.len(),
        forall|j: int|
            0 <= j < requests.len() ==> (#[trigger] requests[j]).1 == (j >= open_from),
        0 <= i < requests.len(),
        open_from - i <= MAX_PENDING,
        forall|j: int|
            i < j < requests.len() ==> (#[trigger] requests[j]).0.0.id != requests[i].0.0.id,
    ensures
        super::pending::after_requests(requests).0 == requests.map_values(
            |r: ((OpenChannelReq, S), bool)| r.0,
        ).skip(oldest_kept(open_from)),
        super::pending::after_requests(requests).1.len() == 0,
        reached_after(downstreams, super::pending::after_requests(requests).0).contains_key(requests[i].0.0.id),
        reached_after(downstreams, super::pending::after_requests(requests).0)[requests[i].0.0.id]
            == requests[i].0.1,
{
    let arrivals = requests.map_values(|r: ((OpenChannelReq, S), bool)| r.0);
    let opened = super::pending::after_requests(requests).0;
    let first = oldest_kept(open_from);
    super::pending::law_nobody_waits_once_open(requests, open_from);
    assert(opened =~= arrivals.skip(first));
    assert(opened[i - first] == requests[i].0);
    assert forall|j: int| i - first < j < opened.len() implies (#[trigger] opened[j]).0.id
        != opened[i - first].0.id by {
        assert(opened[j] == requests[j + first].0);
    }
    law_each_by_its_own_sender(downstreams, opened, i - first);
}

/// The first of the requests that are kept, where the pool's channel is open from the given one on.
pub open spec fn oldest_kept(open_from: int) -> int {
    if open_from <= MAX_PENDING {
        0
    } else {
        open_from - MAX_PENDING
    }
}

/// The requests that channels are still to be opened for, in order, each with the sender that
/// reaches its downstream.
pub struct Opening<S> {
    left: VecDeque<(OpenChannelReq, S)>,
}

impl<S> View for Opening<S> {
    type V = Seq<(OpenChannelReq, S)>;

    closed spec fn view(&self) -> Seq<(OpenChannelReq, S)> {
        self.left@
    }
}

impl<S> Opening<S> {
    /// Begins with a run of requests.
    pub fn new(batch: Vec<(OpenChannelReq, S)>) -> (opening: Self)
        ensures
            opening@ == batch@,
    {
        let ghost all = batch@;
        let mut left: VecDeque<(OpenChannelReq, S)> = VecDeque::new();
        for entry in iter: batch
            invariant
                iter.seq() == all,
                left@ =~= all.take(iter.index() as int),
        {
            left.push_back(entry);
        }
        proof {
            assert(all.take(all.len() as int) =~= all);
        }
        Opening { left }
    }

    /// The request that a channel is to be opened for next, with the sender that takes whatever the
    /// factory has to say to its downstream, in order.
    pub fn next(&self) -> (next: Option<(&OpenChannelReq, &S)>)
        ensures
            next == (if self@.len() > 0 {
                Some((&self@[0].0, &self@[0].1))
            } else {
                None
            }),
    {
        if self.left.len() == 0 {
            return None;
        }
        let entry = &self.left[0];
        Some((&entry.0, &entry.1))
    }

    /// Takes that the channel is open and that its downstream was told: from now on the downstream
    /// is reached by the sender of its request. How the downstreams are reached in the end does not
    /// change on the way there.
    pub fn on_opened(&mut self, upstream: &mut Upstream<S>)
        requires
            old(self)@.len() > 0,
        ensures
            final(self)@ == old(self)@.skip(1),
            final(upstream).hom_downstreams@ == reached_after(
                old(upstream).hom_downstreams@,
                old(self)@.take(1),
            ),
            reached_after(final(upstream).hom_downstreams@, final(self)@) == reached_after(
                old(upstream).hom_downstreams@,
                old(self)@,
            ),
            *final(upstream) == (Upstream {
                hom_downstreams: final(upstream).hom_downstreams,
                ..*old(upstream)
            }),
    {
        proof {
            let first = self@.take(1);
            assert(first.drop_last() =~= Seq::<(OpenChannelReq, S)>::empty());
            assert(reached_after(upstream.hom_downstreams@, first.drop_last())
                == upstream.hom_downstreams@);
            law_runs_add_up(upstream.hom_downstreams@, first, self@.skip(1));
            assert(first + self@.skip(1) =~= self@);
        }
        if let Some((request, sender)) = self.left.pop_front() {
            upstream.register(request.id, sender);
        }
        proof {
            assert(self@ =~= old(self)@.skip(1));
        }
    }
}

/// Channels are opened for the requests of a run in their order, for each once. The downstream of the
/// request whose channel was opened is reached by the sender of that request, under the id in the
/// request, and every other downstream as before.
pub proof fn law_opened_in_order<S>(
    batch: Vec<(OpenChannelReq, S)>,
    opening: &mut Opening<S>,
    upstream: &mut Upstream<S>,
    first: Option<(&OpenChannelReq, &S)>,
    second: Option<(&OpenChannelReq, &S)>,
    other: u32,
)
    requires
        batch@.len() > 0,
        call_ensures(Opening::<S>::new, (batch,), *old(opening)),
        call_ensures(Opening::<S>::next, (&*old(opening),), first),
        call_ensures(Opening::<S>::on_opened, (opening, upstream), ()),
        call_ensures(Opening::<S>::next, (&*final(opening),), second),
    ensures
        first == Some((&batch@[0].0, &batch@[0].1)),
        second == (if batch@.len() > 1 {
            Some((&batch@[1].0, &batch@[1].1))
        } else {
            None
        }),
        final(upstream).hom_downstreams@.contains_key(batch@[0].0.id),
        final(upstream).hom_downstreams@[batch@[0].0.id] == batch@[0].1,
        other != batch@[0].0.id ==> final(upstream).hom_downstreams@.contains_key(other) == old(
            upstream,
        ).hom_downstreams@.contains_key(other),
        other != batch@[0].0.id && old(upstream).hom_downstreams@.contains_key(other) ==>
            final(upstream).hom_downstreams@[other] == old(upstream).hom_downstreams@[other],
        final(upstream).channel_id == old(upstream).channel_id,
        final(upstream).job_id == old(upstream).job_id,
        final(upstream).channel_factory == old(upstream).channel_factory,
        final(upstream).total_hash_rate == old(upstream).total_hash_rate,
{
    let opened = old(opening)@.take(1);
    assert(opened[0] == batch@[0]);
    law_each_by_its_own_sender(old(upstream).hom_downstreams@, opened, 0);
    if other != batch@[0].0.id {
        law_others_as_before(old(upstream).hom_downstreams@, opened, other);
    }
}

} // verus!
