//! Extranonces that downstreams were given before they were attached to an upstream, and that
//! have to be replaced once they are.
use vstd::prelude::*;

use crate::linear_map::LinearMap;
use crate::net::SocketAddr;

verus! {

/// What a downstream was told when it subscribed, and what it said about itself.
pub struct PendingExtranonce {
    pub extranonce1: Vec<u8>,
    pub user_agent: String,
}

/// The downstreams whose extranonce has to be replaced.
pub struct PendingExtranonces {
    pending: LinearMap<SocketAddr, PendingExtranonce>,
}

impl View for PendingExtranonces {
    type V = Map<SocketAddr, PendingExtranonce>;

    closed spec fn view(&self) -> Map<SocketAddr, PendingExtranonce> {
        self.pending@
    }
}

impl PendingExtranonces {
    /// No downstreams.
    pub fn new() -> (pending: Self)
        ensures
            pending@ == Map::<SocketAddr, PendingExtranonce>::empty(),
    {
        PendingExtranonces { pending: LinearMap::new() }
    }
}

/// What is pending after a downstream was marked.
pub open spec fn after_mark(
    pending: Map<SocketAddr, PendingExtranonce>,
    addr: SocketAddr,
    entry: PendingExtranonce,
) -> Map<SocketAddr, PendingExtranonce> {
    pending.insert(addr, entry)
}

/// What is pending after the entry of a downstream was taken.
pub open spec fn after_take(
    pending: Map<SocketAddr, PendingExtranonce>,
    addr: SocketAddr,
) -> Map<SocketAddr, PendingExtranonce> {
    pending.remove(addr)
}

/// What taking the entry of a downstream gives.
pub open spec fn taken(
    pending: Map<SocketAddr, PendingExtranonce>,
    addr: SocketAddr,
) -> Option<PendingExtranonce> {
    if pending.contains_key(addr) {
        Some(pending[addr])
    } else {
        None
    }
}

/// Marks a downstream, with what it was told. An earlier mark of it is forgotten.
pub fn mark(
    pending: &mut PendingExtranonces,
    addr: SocketAddr,
    extranonce1: Vec<u8>,
    user_agent: String,
)
    ensures
        final(pending)@ == after_mark(
            old(pending)@,
            addr,
            (PendingExtranonce { extranonce1, user_agent }),
        ),
{
    pending.pending.insert(addr, PendingExtranonce { extranonce1, user_agent });
}

/// Takes the entry of a downstream, if it was marked.
pub fn take(pending: &mut PendingExtranonces, addr: &SocketAddr) -> (entry: Option<
    PendingExtranonce,
>)
    ensures
        entry == taken(old(pending)@, *addr),
        final(pending)@ == after_take(old(pending)@, *addr),
{
    pending.pending.remove(addr)
}

/// What was marked last for a downstream is taken once.
pub proof fn law_mark_is_taken_once(
    pending: Map<SocketAddr, PendingExtranonce>,
    addr: SocketAddr,
    entry: PendingExtranonce,
)
    ensures
        taken(after_mark(pending, addr, entry), addr) == Some(entry),
        taken(after_take(after_mark(pending, addr, entry), addr), addr) is None,
{
}

/// Neither marking nor taking a downstream changes what is pending for another one.
pub proof fn law_marks_are_independent(
    pending: Map<SocketAddr, PendingExtranonce>,
    addr: SocketAddr,
    entry: PendingExtranonce,
    other: SocketAddr,
)
    requires
        addr != other,
    ensures
        taken(after_mark(pending, addr, entry), other) == taken(pending, other),
        taken(after_take(pending, addr), other) == taken(pending, other),
{
}

/// Nothing is pending where nothing was marked, and taking the entry of a downstream that was not
/// marked changes nothing.
pub proof fn law_only_marks_are_taken(
    pending: Map<SocketAddr, PendingExtranonce>,
    addr: SocketAddr,
)
    ensures
        taken(Map::empty(), addr) is None,
        taken(pending, addr) is None ==> after_take(pending, addr) == pending,
{
    if taken(pending, addr) is None {
        assert(after_take(pending, addr) =~= pending);
    }
}

/// What a downstream was told is given back as it was, the first time it is taken after it was
/// marked, and not a second time. What is pending for another one stays.
pub proof fn law_marks_are_given_back(
    pending: &mut PendingExtranonces,
    addr: SocketAddr,
    extranonce1: Vec<u8>,
    user_agent: String,
    first: &mut PendingExtranonces,
    given: Option<PendingExtranonce>,
    second: &mut PendingExtranonces,
    again: Option<PendingExtranonce>,
    other: SocketAddr,
    untouched: &mut PendingExtranonces,
    expected: Option<PendingExtranonce>,
    elsewhere: &mut PendingExtranonces,
    other_given: Option<PendingExtranonce>,
)
    requires
        call_ensures(mark, (pending, addr, extranonce1, user_agent), ()),
        *old(first) == *final(pending),
        call_ensures(take, (first, &addr), given),
        *old(second) == *final(first),
        call_ensures(take, (second, &addr), again),
        other != addr,
        *old(untouched) == *old(pending),
        call_ensures(take, (untouched, &other), expected),
        *old(elsewhere) == *final(first),
        call_ensures(take, (elsewhere, &other), other_given),
    ensures
        given matches Some(entry) && entry.extranonce1@ == extranonce1@ && entry.user_agent@
            == user_agent@,
        again is None,
        other_given == expected,
{
}

/// Nothing is pending at first.
pub proof fn law_nothing_pending_at_first(
    list: PendingExtranonces,
    pending: &mut PendingExtranonces,
    addr: SocketAddr,
    given: Option<PendingExtranonce>,
)
    requires
        call_ensures(PendingExtranonces::new, (), list),
        *old(pending) == list,
        call_ensures(take, (pending, &addr), given),
    ensures
        given is None,
{
}

} // verus!
