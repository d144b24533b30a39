use sv2_router::net::{IpAddr, SocketAddr};
use sv2_router::token_router::creation::{CreateError, Creation, CreationStep};
use sv2_router::token_router::registry::{
    is_finished, Admission, InstanceEntry, InstanceRegistry,
};
use sv2_router::token_router::{PoolAddressSource, Resolution, TokenRouter};

fn text(s: &str) -> String {
    s.to_string()
}

fn pool(port: u16) -> SocketAddr {
    SocketAddr { ip: IpAddr::V4(192, 0, 2, 1), port, flowinfo: 0, scope_id: 0 }
}

#[test]
fn an_upstream_is_finished_when_all_its_tasks_are() {
    assert!(is_finished(&vec![]));
    assert!(is_finished(&vec![true, true, true]));
    assert!(!is_finished(&vec![true, false, true]));
    assert!(!is_finished(&vec![false]));
}

#[test]
fn one_downstream_creates_and_the_others_wait() {
    let mut registry: InstanceRegistry<&str, u8> = InstanceRegistry::new();
    let token = text("t");
    assert_eq!(registry.get_or_create(&token, false, 1), Admission::Create);
    assert_eq!(registry.get_or_create(&token, false, 2), Admission::Wait);
    assert_eq!(registry.get_or_create(&token, true, 3), Admission::Wait);
    assert!(matches!(registry.get(&token), Some(InstanceEntry::Creating(1))));
}

#[test]
fn a_created_upstream_is_joined_until_it_is_finished() {
    let mut registry: InstanceRegistry<&str, u8> = InstanceRegistry::new();
    let token = text("t");
    registry.get_or_create(&token, false, 1);
    registry.complete(&token, Some("upstream"));
    assert!(matches!(registry.get(&token), Some(InstanceEntry::Ready("upstream"))));
    assert_eq!(registry.get_or_create(&token, false, 2), Admission::Join);
    assert_eq!(registry.get_or_create(&token, true, 3), Admission::Create);
    assert!(matches!(registry.get(&token), Some(InstanceEntry::Creating(3))));
}

#[test]
fn a_failed_creation_is_tried_again() {
    let mut registry: InstanceRegistry<&str, u8> = InstanceRegistry::new();
    let token = text("t");
    registry.get_or_create(&token, false, 1);
    registry.complete(&token, None);
    assert!(registry.get(&token).is_none());
    assert_eq!(registry.get_or_create(&token, false, 2), Admission::Create);
}

#[test]
fn tokens_have_their_own_upstreams() {
    let mut registry: InstanceRegistry<&str, u8> = InstanceRegistry::new();
    registry.get_or_create(&text("a"), false, 1);
    assert_eq!(registry.get_or_create(&text("b"), false, 2), Admission::Create);
    registry.complete(&text("a"), None);
    assert_eq!(registry.get_or_create(&text("b"), false, 3), Admission::Wait);
}

#[test]
fn given_addresses_are_used() {
    let router: TokenRouter<(), (), (), ()> = TokenRouter::new(
        PoolAddressSource::Static(vec![pool(1), pool(2)]),
        (),
        (),
        text("signature"),
    );
    assert_eq!(router.signature, "signature");
    match router.resolve_pool_addresses() {
        Resolution::Known(addresses) => assert_eq!(addresses, vec![pool(1), pool(2)]),
        _ => panic!(),
    }
    let empty: TokenRouter<(), (), (), ()> =
        TokenRouter::new(PoolAddressSource::Static(vec![]), (), (), text(""));
    assert!(matches!(empty.resolve_pool_addresses(), Resolution::Unavailable));
}

#[test]
fn addresses_are_asked_for_until_there_are_some() {
    let mut router: TokenRouter<(), (), (), ()> =
        TokenRouter::new(PoolAddressSource::Dynamic, (), (), text(""));
    assert!(matches!(router.resolve_pool_addresses(), Resolution::Fetch));
    assert!(router.on_fetched(None).is_none());
    assert!(matches!(router.resolve_pool_addresses(), Resolution::Fetch));
    assert!(router.on_fetched(Some(vec![])).is_none());
    assert!(matches!(router.resolve_pool_addresses(), Resolution::Fetch));
    assert_eq!(router.on_fetched(Some(vec![pool(3)])), Some(vec![pool(3)]));
    match router.resolve_pool_addresses() {
        Resolution::Known(addresses) => assert_eq!(addresses, vec![pool(3)]),
        _ => panic!(),
    }
}

fn creation() -> Creation {
    match Creation::new(Some(vec![pool(1), pool(2)])) {
        Ok(creation) => creation,
        Err(_) => panic!(),
    }
}

fn failure(step: usize) -> String {
    let mut creation = creation();
    for _ in 0..step {
        assert!(creation.on_outcome(Ok(())).is_ok());
    }
    let message = match creation.on_outcome(Err(text("reason"))) {
        Err(e) => e.message(),
        Ok(_) => panic!(),
    };
    assert_eq!(creation.step(), CreationStep::Failed);
    message
}

#[test]
fn a_creation_goes_step_by_step() {
    let mut creation = creation();
    assert_eq!(creation.step(), CreationStep::Connect(pool(1)));
    for expected in [
        CreationStep::StartTranslator,
        CreationStep::AwaitTranslator,
        CreationStep::StartShareAccounter,
        CreationStep::Created,
    ] {
        match creation.on_outcome(Ok(())) {
            Ok(step) => assert_eq!(step, expected),
            Err(_) => panic!(),
        }
        assert_eq!(creation.step(), expected);
    }
}

#[test]
fn each_step_fails_in_its_own_words() {
    match Creation::new(None) {
        Err(e) => {
            assert!(matches!(e, CreateError::NoPoolAddresses));
            assert_eq!(e.message(), "No pool addresses available for this token");
        }
        Ok(_) => panic!(),
    }
    assert_eq!(failure(0), "SV2 pool connection failed: reason");
    assert_eq!(failure(1), "Failed to start translator: reason");
    assert_eq!(failure(2), "Translator failed before initialization");
    assert_eq!(failure(3), "Failed to start share accounter: reason");
}
