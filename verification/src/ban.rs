//! Addresses that are kept out for a while.
//!
//! Times are in nanoseconds since some moment that stays the same, such as the start of the
//! program.
use vstd::prelude::*;

use crate::linear_map::LinearMap;
use crate::net::IpAddr;

verus! {

/// For how long an address is banned, in nanoseconds: a minute.
pub const DEFAULT_BAN_DURATION: u128 = 60_000_000_000;

/// The banned addresses, each with the time at which its ban ends.
pub struct BanList {
    bans: LinearMap<IpAddr, u128>,
}

impl View for BanList {
    type V = Map<IpAddr, u128>;

    closed spec fn view(&self) -> Map<IpAddr, u128> {
        self.bans@
    }
}

/// Whether an address is banned at a time.
pub open spec fn banned(bans: Map<IpAddr, u128>, ip: IpAddr, now: u128) -> bool {
    bans.contains_key(ip) && now < bans[ip]
}

/// The bans after another one, which takes the place of an earlier one of the same address.
pub open spec fn after_ban(bans: Map<IpAddr, u128>, ip: IpAddr, now: u128, duration: u128) -> Map<
    IpAddr,
    u128,
> {
    bans.insert(ip, (now + duration) as u128)
}

/// The bans after a look at an address: a ban that is over is forgotten.
pub open spec fn after_look(bans: Map<IpAddr, u128>, ip: IpAddr, now: u128) -> Map<IpAddr, u128> {
    if banned(bans, ip, now) {
        bans
    } else {
        bans.remove(ip)
    }
}

impl BanList {
    /// A list on which no address is banned.
    pub fn new() -> (bans: Self)
        ensures
            bans@ == Map::<IpAddr, u128>::empty(),
    {
        BanList { bans: LinearMap::new() }
    }
}

/// Bans an address from now on, for the given duration.
pub fn ban_ip(bans: &mut BanList, ip: IpAddr, now: u128, duration: u128)
    requires
        now + duration <= u128::MAX,
    ensures
        final(bans)@ == after_ban(old(bans)@, ip, now, duration),
{
    bans.bans.insert(ip, now + duration);
}

/// Whether an address is banned now.
pub fn is_banned(bans: &mut BanList, ip: &IpAddr, now: u128) -> (b: bool)
    ensures
        b == banned(old(bans)@, *ip, now),
        final(bans)@ == after_look(old(bans)@, *ip, now),
{
    let expires_at: Option<u128> = match bans.bans.get(ip) {
        Some(expires_at) => Some(*expires_at),
        None => None,
    };
    match expires_at {
        Some(expires_at) => {
            if now < expires_at {
                return true;
            }
            let _ = bans.bans.remove(ip);
        },
        None => {
            proof {
                assert(bans@ =~= bans@.remove(*ip));
            }
        },
    }
    false
}

/// A banned address is banned until the duration is over, and not any longer.
pub proof fn law_ban_lasts_its_duration(
    bans: Map<IpAddr, u128>,
    ip: IpAddr,
    start: u128,
    duration: u128,
    now: u128,
)
    requires
        start + duration <= u128::MAX,
    ensures
        banned(after_ban(bans, ip, start, duration), ip, now) <==> now < start + duration,
{
}

/// Neither a ban nor a look changes whether another address is banned.
pub proof fn law_bans_are_independent(
    bans: Map<IpAddr, u128>,
    ip: IpAddr,
    other: IpAddr,
    start: u128,
    duration: u128,
    now: u128,
)
    requires
        ip != other,
    ensures
        banned(after_ban(bans, ip, start, duration), other, now) == banned(bans, other, now),
        banned(after_look(bans, ip, start), other, now) == banned(bans, other, now),
{
}

/// Forgetting bans that are over does not show: as time does not go backwards, no later answer
/// changes for any address.
pub proof fn law_looks_do_not_show(
    bans: Map<IpAddr, u128>,
    ip: IpAddr,
    looked: u128,
    other: IpAddr,
    now: u128,
)
    requires
        looked <= now,
    ensures
        banned(after_look(bans, ip, looked), other, now) == banned(bans, other, now),
{
}

/// A ban of an address: from when on, and for how long.
pub ghost struct Ban {
    pub ip: IpAddr,
    pub start: u128,
    pub duration: u128,
}

/// The bans after a run of them, on a list that was empty.
pub open spec fn after_bans(run: Seq<Ban>) -> Map<IpAddr, u128>
    decreases run.len(),
{
    if run.len() == 0 {
        Map::empty()
    } else {
        let ban = run.last();
        after_ban(after_bans(run.drop_last()), ban.ip, ban.start, ban.duration)
    }
}

/// Over any run of bans, the last ban of an address decides whether it is banned: it is until the
/// duration of that one is over. An address that never was banned is not.
pub proof fn law_last_ban_decides(run: Seq<Ban>, ip: IpAddr, now: u128)
    requires
        forall|i: int|
            0 <= i < run.len() ==> (#[trigger] run[i]).start + run[i].duration <= u128::MAX,
    ensures
        banned(after_bans(run), ip, now) <==> exists|i: int|
            0 <= i < run.len() && (#[trigger] run[i]).ip == ip && now < run[i].start
                + run[i].duration && forall|j: int|
                i < j < run.len() ==> (#[trigger] run[j]).ip != ip,
    decreases run.len(),
{
    if run.len() > 0 {
        let before = run.drop_last();
        let n = run.len() - 1;
        let last = run[n];
        assert forall|i: int| 0 <= i < before.len() implies (#[trigger] before[i]).start
            + before[i].duration <= u128::MAX by {
            assert(before[i] == run[i]);
        }
        law_last_ban_decides(before, ip, now);
        law_ban_lasts_its_duration(after_bans(before), last.ip, last.start, last.duration, now);
        if last.ip != ip {
            law_bans_are_independent(
                after_bans(before),
                last.ip,
                ip,
                last.start,
                last.duration,
                now,
            );
            if banned(after_bans(before), ip, now) {
                let i = choose|i: int|
                    0 <= i < before.len() && (#[trigger] before[i]).ip == ip && now
                        < before[i].start + before[i].duration && forall|j: int|
                        i < j < before.len() ==> (#[trigger] before[j]).ip != ip;
                assert(run[i] == before[i]);
                assert forall|j: int| i < j < run.len() implies (#[trigger] run[j]).ip != ip by {
                    if j < n {
                        assert(before[j] == run[j]);
                    }
                }
            }
            if exists|i: int|
                0 <= i < run.len() && (#[trigger] run[i]).ip == ip && now < run[i].start
                    + run[i].duration && forall|j: int|
                    i < j < run.len() ==> (#[trigger] run[j]).ip != ip {
                let i = choose|i: int|
                    0 <= i < run.len() && (#[trigger] run[i]).ip == ip && now < run[i].start
                        + run[i].duration && forall|j: int|
                        i < j < run.len() ==> (#[trigger] run[j]).ip != ip;
                assert(before[i] == run[i]);
                assert forall|j: int| i < j < before.len() implies (#[trigger] before[j]).ip
                    != ip by {
                    assert(before[j] == run[j]);
                }
            }
        } else {
            if banned(after_bans(run), ip, now) {
                assert(run[n].ip == ip && now < run[n].start + run[n].duration);
            }
            if exists|i: int|
                0 <= i < run.len() && (#[trigger] run[i]).ip == ip && now < run[i].start
                    + run[i].duration && forall|j: int|
                    i < j < run.len() ==> (#[trigger] run[j]).ip != ip {
                let i = choose|i: int|
                    0 <= i < run.len() && (#[trigger] run[i]).ip == ip && now < run[i].start
                        + run[i].duration && forall|j: int|
                        i < j < run.len() ==> (#[trigger] run[j]).ip != ip;
                assert(i == n) by {
                    if i < n {
                        assert(run[n].ip != ip);
                    }
                }
            }
        }
    }
}

/// A look at an address keeps a ban that is not over, with its end, and every ban of the others.
pub proof fn law_looks_keep_bans(
    bans: Map<IpAddr, u128>,
    ip: IpAddr,
    now: u128,
    other: IpAddr,
)
    requires
        bans.contains_key(other),
        other != ip || now < bans[other],
    ensures
        after_look(bans, ip, now).contains_key(other),
        after_look(bans, ip, now)[other] == bans[other],
{
}

/// After a ban an address is found banned as long as the duration is not over, whatever was known of
/// it before, and not any longer. For any other address the ban changes nothing.
pub proof fn law_ban_is_found(
    bans: &mut BanList,
    ip: IpAddr,
    start: u128,
    duration: u128,
    looking: &mut BanList,
    now: u128,
    found: bool,
    before: &mut BanList,
    other: IpAddr,
    other_before: bool,
    after: &mut BanList,
    other_after: bool,
)
    requires
        start + duration <= u128::MAX,
        call_ensures(ban_ip, (bans, ip, start, duration), ()),
        *old(looking) == *final(bans),
        call_ensures(is_banned, (looking, &ip, now), found),
        other != ip,
        *old(before) == *old(bans),
        call_ensures(is_banned, (before, &other, now), other_before),
        *old(after) == *final(bans),
        call_ensures(is_banned, (after, &other, now), other_after),
    ensures
        found <==> now < start + duration,
        other_after == other_before,
{
}

/// No address is banned at first, and to look at one changes no later answer about any.
pub proof fn law_only_bans_are_found(
    list: BanList,
    looking: &mut BanList,
    ip: IpAddr,
    now: u128,
    found: bool,
    bans: &mut BanList,
    looked: u128,
    first: bool,
    untouched: &mut BanList,
    other: IpAddr,
    later: u128,
    expected: bool,
    again: &mut BanList,
    second: bool,
)
    requires
        call_ensures(BanList::new, (), list),
        *old(looking) == list,
        call_ensures(is_banned, (looking, &ip, now), found),
        call_ensures(is_banned, (bans, &ip, looked), first),
        looked <= later,
        *old(untouched) == *old(bans),
        call_ensures(is_banned, (untouched, &other, later), expected),
        *old(again) == *final(bans),
        call_ensures(is_banned, (again, &other, later), second),
    ensures
        !found,
        second == expected,
{
}

} // verus!
