use learn_protocol::badge_nft::{authorize_registry, holds_badge, record_badge};
use learn_protocol::{Address, Badge, BadgeError, BadgeNFT};

fn addr(tag: u8) -> Address {
    Address::new(vec![b'G', b'B', tag])
}

#[test]
fn initialize_only_once() {
    let mut nft = BadgeNFT::new();
    assert_eq!(nft.initialize(addr(1)), Ok(()));
    assert_eq!(nft.initialize(addr(2)), Err(BadgeError::AlreadyInitialized));
    assert_eq!(BadgeError::AlreadyInitialized.message(), "Already initialized");
    // the first registry stays in charge
    assert!(nft.mint_badge(&addr(1), addr(5), 1, 0).is_ok());
    assert_eq!(nft.mint_badge(&addr(2), addr(5), 2, 0).err(), Some(BadgeError::Unauthorized));
}

#[test]
fn mint_requires_initialization() {
    let mut nft = BadgeNFT::new();
    let result = nft.mint_badge(&addr(1), addr(2), 101, 5);
    assert_eq!(result.err(), Some(BadgeError::NotInitialized));
    assert_eq!(BadgeError::NotInitialized.message(), "Contract not initialized");
    assert_eq!(nft.get_badge_count(&addr(2)), 0);
}

#[test]
fn mint_by_other_than_registry_is_refused() {
    let mut nft = BadgeNFT::new();
    nft.initialize(addr(1)).unwrap();
    let result = nft.mint_badge(&addr(9), addr(2), 101, 5);
    assert_eq!(result.err(), Some(BadgeError::Unauthorized));
    assert_eq!(
        BadgeError::Unauthorized.message(),
        "Unauthorized: Caller is not the authorized registry"
    );
    assert!(!nft.has_badge(&addr(2), 101));
}

#[test]
fn mint_records_badge_and_event() {
    let mut nft = BadgeNFT::new();
    let admin = addr(1);
    let learner = addr(2);
    nft.initialize(admin.clone()).unwrap();
    let event = nft.mint_badge(&admin, learner.clone(), 101, 1234).ok().unwrap();
    assert!(event.learner.same(&learner));
    assert_eq!(event.course_id, 101);
    assert_eq!(event.minted_at, 1234);
    assert_eq!(nft.get_badges(&learner), vec![Badge { course_id: 101, minted_at: 1234 }]);
    assert_eq!(nft.get_badge_count(&learner), 1);
    assert!(nft.has_badge(&learner, 101));
    assert!(!nft.has_badge(&learner, 102));
}

#[test]
fn duplicate_badge_is_refused() {
    let mut nft = BadgeNFT::new();
    let admin = addr(1);
    let learner = addr(2);
    nft.initialize(admin.clone()).unwrap();
    nft.mint_badge(&admin, learner.clone(), 101, 10).ok().unwrap();
    let again = nft.mint_badge(&admin, learner.clone(), 101, 20);
    assert_eq!(again.err(), Some(BadgeError::DuplicateBadge));
    assert_eq!(BadgeError::DuplicateBadge.message(), "Badge for this course already exists");
    assert_eq!(nft.get_badges(&learner), vec![Badge { course_id: 101, minted_at: 10 }]);
}

#[test]
fn badges_keep_mint_order_and_stay_per_learner() {
    let mut nft = BadgeNFT::new();
    let admin = addr(1);
    let alice = addr(2);
    let bob = addr(3);
    nft.initialize(admin.clone()).unwrap();
    nft.mint_badge(&admin, alice.clone(), 103, 1).ok().unwrap();
    nft.mint_badge(&admin, bob.clone(), 103, 2).ok().unwrap();
    nft.mint_badge(&admin, alice.clone(), 101, 3).ok().unwrap();
    assert_eq!(
        nft.get_badges(&alice),
        vec![Badge { course_id: 103, minted_at: 1 }, Badge { course_id: 101, minted_at: 3 }]
    );
    assert_eq!(nft.get_badges(&bob), vec![Badge { course_id: 103, minted_at: 2 }]);
    assert_eq!(nft.get_badge_count(&alice), 2);
    assert_eq!(nft.get_badge_count(&bob), 1);
    assert_eq!(nft.get_badges(&addr(4)), Vec::<Badge>::new());
    assert_eq!(nft.get_badge_count(&addr(4)), 0);
    assert!(!nft.has_badge(&bob, 101));
}

#[test]
fn record_badge_on_a_list() {
    let mut list = vec![Badge { course_id: 1, minted_at: 0 }];
    assert_eq!(record_badge(&mut list, 2, 9), Ok(Badge { course_id: 2, minted_at: 9 }));
    assert_eq!(list.len(), 2);
    assert_eq!(record_badge(&mut list, 1, 9), Err(BadgeError::DuplicateBadge));
    assert_eq!(list.len(), 2);
    assert!(holds_badge(&list, 2));
    assert!(!holds_badge(&list, 3));
    assert!(!holds_badge(&Vec::new(), 1));
}

#[test]
fn registry_check_cases() {
    let caller = addr(1);
    assert_eq!(authorize_registry(&None, &caller), Err(BadgeError::NotInitialized));
    assert_eq!(authorize_registry(&Some(addr(1)), &caller), Ok(()));
    assert_eq!(authorize_registry(&Some(addr(2)), &caller), Err(BadgeError::Unauthorized));
}

#[test]
fn addresses_compare_by_bytes() {
    let a = Address::new(vec![1, 2, 3]);
    assert!(a.same(&Address::new(vec![1, 2, 3])));
    assert!(!a.same(&Address::new(vec![1, 2])));
    assert!(!a.same(&Address::new(vec![1, 2, 4])));
    let b = a.clone();
    assert!(b.same(&a));
    assert_eq!(b.bytes, vec![1, 2, 3]);
}
