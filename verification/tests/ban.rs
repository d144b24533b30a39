use sv2_router::ban::{ban_ip, is_banned, BanList, DEFAULT_BAN_DURATION};
use sv2_router::net::IpAddr;

const ONE: IpAddr = IpAddr::V4(203, 0, 113, 1);
const TWO: IpAddr = IpAddr::V6(0x2001_0db8_0000_0000_0000_0000_0000_0001);

#[test]
fn nobody_is_banned_at_first() {
    let mut bans = BanList::new();
    assert!(!is_banned(&mut bans, &ONE, 0));
}

#[test]
fn a_ban_lasts_its_duration() {
    let mut bans = BanList::new();
    ban_ip(&mut bans, ONE, 1_000, DEFAULT_BAN_DURATION);
    assert!(is_banned(&mut bans, &ONE, 1_000));
    assert!(is_banned(&mut bans, &ONE, 60_000_000_999));
    assert!(!is_banned(&mut bans, &ONE, 60_000_001_000));
}

#[test]
fn a_ban_of_no_duration_is_over_at_once() {
    let mut bans = BanList::new();
    ban_ip(&mut bans, ONE, 5, 0);
    assert!(!is_banned(&mut bans, &ONE, 5));
}

#[test]
fn bans_are_independent() {
    let mut bans = BanList::new();
    ban_ip(&mut bans, ONE, 0, 10);
    assert!(!is_banned(&mut bans, &TWO, 5));
    ban_ip(&mut bans, TWO, 0, 100);
    assert!(!is_banned(&mut bans, &ONE, 10));
    assert!(is_banned(&mut bans, &TWO, 99));
}

#[test]
fn a_later_ban_takes_the_place_of_an_earlier_one() {
    let mut bans = BanList::new();
    ban_ip(&mut bans, ONE, 0, 100);
    ban_ip(&mut bans, ONE, 0, 10);
    assert!(!is_banned(&mut bans, &ONE, 10));
    ban_ip(&mut bans, ONE, 20, 10);
    assert!(is_banned(&mut bans, &ONE, 29));
}

#[test]
fn looking_at_an_address_does_not_change_later_answers() {
    let mut looked = BanList::new();
    let mut unseen = BanList::new();
    for bans in [&mut looked, &mut unseen] {
        ban_ip(bans, ONE, 0, 10);
        ban_ip(bans, TWO, 0, 20);
    }
    assert!(!is_banned(&mut looked, &ONE, 12));
    for now in 12..25 {
        assert_eq!(is_banned(&mut looked, &ONE, now), is_banned(&mut unseen, &ONE, now));
        assert_eq!(is_banned(&mut looked, &TWO, now), is_banned(&mut unseen, &TWO, now));
    }
}
