use sv2_router::linear_map::{Key, LinearMap};
use sv2_router::net::{IpAddr, SocketAddr};

#[test]
fn private_blocks_are_recognized() {
    for (ip, private) in [
        (IpAddr::V4(10, 0, 0, 0), true),
        (IpAddr::V4(10, 255, 255, 255), true),
        (IpAddr::V4(11, 0, 0, 0), false),
        (IpAddr::V4(9, 255, 255, 255), false),
        (IpAddr::V4(172, 15, 255, 255), false),
        (IpAddr::V4(172, 16, 0, 0), true),
        (IpAddr::V4(172, 31, 255, 255), true),
        (IpAddr::V4(172, 32, 0, 0), false),
        (IpAddr::V4(192, 168, 0, 0), true),
        (IpAddr::V4(192, 168, 255, 255), true),
        (IpAddr::V4(192, 169, 0, 0), false),
        (IpAddr::V4(127, 0, 0, 1), false),
        (IpAddr::V6(1), false),
        (IpAddr::V6(0xfc00 << 112), false),
    ] {
        assert_eq!(ip.is_private(), private, "{:?}", ip);
    }
}

#[test]
fn addresses_are_told_apart_by_every_part() {
    let base = SocketAddr { ip: IpAddr::V6(7), port: 1, flowinfo: 2, scope_id: 3 };
    assert!(base.same(&base));
    assert!(!base.same(&SocketAddr { port: 2, ..base }));
    assert!(!base.same(&SocketAddr { flowinfo: 0, ..base }));
    assert!(!base.same(&SocketAddr { scope_id: 0, ..base }));
    assert!(!base.same(&SocketAddr { ip: IpAddr::V4(0, 0, 0, 7), ..base }));
    assert!(!IpAddr::V6(7).same(&IpAddr::V4(0, 0, 0, 7)));
}

#[test]
fn a_map_keeps_the_last_value_of_a_key() {
    let mut map: LinearMap<String, u8> = LinearMap::new();
    assert_eq!(map.get(&"a".to_string()), None);
    map.insert("a".to_string(), 1);
    map.insert("b".to_string(), 2);
    map.insert("a".to_string(), 3);
    assert_eq!(map.get(&"a".to_string()), Some(&3));
    assert_eq!(map.get(&"b".to_string()), Some(&2));
    assert_eq!(map.remove(&"a".to_string()), Some(3));
    assert_eq!(map.remove(&"a".to_string()), None);
    assert_eq!(map.get(&"b".to_string()), Some(&2));
}
