use sv2_router::keys::authority_keys;
use sv2_router::ingress::sv2_ingress::start_listen_for_sv2_downstream;

const PUBLIC: &str = "9bDuixKmZqAJnrmP746n8zU1wyAQRrus7th9dxnkPg6RzQvCnan";
const SECRET: &str = "zmBEmPhqo3A92FkiLVvyCz6htc3e53ph3ZbD4ASqGaLjwnFLi";

fn public_bytes() -> [u8; 32] {
    PUBLIC.parse::<key_utils::Secp256k1PublicKey>().unwrap().into_bytes()
}

fn secret_bytes() -> [u8; 32] {
    SECRET.parse::<key_utils::Secp256k1SecretKey>().unwrap().into_bytes()
}

#[test]
fn both_keys_are_read() {
    let keys = authority_keys(&PUBLIC.to_string(), &SECRET.to_string()).unwrap();
    assert_eq!(keys.public_key, public_bytes());
    assert_eq!(keys.private_key, secret_bytes());
    assert_ne!(keys.public_key, keys.private_key);
}

#[test]
fn texts_that_are_no_keys_are_refused() {
    let (public, secret) = (PUBLIC.to_string(), SECRET.to_string());
    assert!(authority_keys(&"".to_string(), &secret).is_none());
    assert!(authority_keys(&public, &"".to_string()).is_none());
    assert!(authority_keys(&secret, &secret).is_none());
    assert!(authority_keys(&public, &public).is_none());
    let bad_checksum = "9bDuixKmZqAJnrmP746n8zU1wyAQRrus7th9dxnkPg6RzQvCnam".to_string();
    assert!(authority_keys(&bad_checksum, &secret).is_none());
}

#[test]
fn the_listener_starts_with_the_keys_of_its_secret() {
    let plan = start_listen_for_sv2_downstream(
        Some("0.0.0.0:34255".to_string()),
        Some(SECRET.to_string()),
    )
    .unwrap();
    assert_eq!(plan.listen_addr, "0.0.0.0:34255");
    assert_eq!(plan.keys.public_key, public_bytes());
    assert_eq!(plan.keys.private_key, secret_bytes());
}

#[test]
fn the_listener_needs_an_address_and_a_secret() {
    let addr = || Some("0.0.0.0:34255".to_string());
    let secret = || Some(SECRET.to_string());
    assert!(start_listen_for_sv2_downstream(None, secret()).is_none());
    assert!(start_listen_for_sv2_downstream(addr(), None).is_none());
    assert!(start_listen_for_sv2_downstream(None, None).is_none());
    assert!(start_listen_for_sv2_downstream(addr(), Some("secret".to_string())).is_none());
}
