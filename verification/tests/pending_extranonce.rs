use sv2_router::net::{IpAddr, SocketAddr};
use sv2_router::pending_extranonce::{mark, take, PendingExtranonces};

fn addr(port: u16) -> SocketAddr {
    SocketAddr { ip: IpAddr::V4(198, 51, 100, 7), port, flowinfo: 0, scope_id: 0 }
}

#[test]
fn nothing_is_pending_at_first() {
    let mut pending = PendingExtranonces::new();
    assert!(take(&mut pending, &addr(1)).is_none());
}

#[test]
fn a_mark_is_taken_once() {
    let mut pending = PendingExtranonces::new();
    mark(&mut pending, addr(1), vec![1, 2], "cgminer".to_string());
    let entry = take(&mut pending, &addr(1)).unwrap();
    assert_eq!(entry.extranonce1, vec![1, 2]);
    assert_eq!(entry.user_agent, "cgminer");
    assert!(take(&mut pending, &addr(1)).is_none());
}

#[test]
fn the_last_mark_counts() {
    let mut pending = PendingExtranonces::new();
    mark(&mut pending, addr(1), vec![1], "a".to_string());
    mark(&mut pending, addr(1), vec![2], "b".to_string());
    let entry = take(&mut pending, &addr(1)).unwrap();
    assert_eq!(entry.extranonce1, vec![2]);
    assert_eq!(entry.user_agent, "b");
    assert!(take(&mut pending, &addr(1)).is_none());
}

#[test]
fn marks_are_independent() {
    let mut pending = PendingExtranonces::new();
    mark(&mut pending, addr(1), vec![1], "a".to_string());
    mark(&mut pending, addr(2), vec![2], "b".to_string());
    assert_eq!(take(&mut pending, &addr(1)).unwrap().extranonce1, vec![1]);
    assert_eq!(take(&mut pending, &addr(2)).unwrap().extranonce1, vec![2]);
}
