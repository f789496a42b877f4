use user_service::store::UserStore;
use user_service::user::{SubscriptionStatus, User};

fn user(id: i32, name: &str) -> User {
    User {
        user_id: id,
        name: name.to_string(),
        quote: String::new(),
        pets: vec![],
        subscription_status: SubscriptionStatus::Free,
    }
}

#[test]
fn empty_store_finds_nobody() {
    let store = UserStore::new();
    assert!(store.get_user(42).is_none());
    assert!(store.get_user(0).is_none());
}

#[test]
fn added_user_is_found_under_its_id() {
    let mut store = UserStore::new();
    assert!(store.add_user(user(42, "John Doe")).is_ok());
    assert_eq!(store.get_user(42), Some(&user(42, "John Doe")));
    assert!(store.get_user(43).is_none());
}

#[test]
fn zero_id_is_refused_with_bad_request() {
    let mut store = UserStore::new();
    match store.add_user(user(0, "Nobody")) {
        Ok(()) => panic!("a user with id 0 was stored"),
        Err(e) => {
            assert_eq!(e.status_code, 400);
            assert_eq!(e.message, "user_id must be non-zero");
        }
    }
    assert!(store.get_user(0).is_none());
}

#[test]
fn later_add_replaces_earlier() {
    let mut store = UserStore::new();
    assert!(store.add_user(user(42, "John Doe")).is_ok());
    assert!(store.add_user(user(43, "Jane Doe")).is_ok());
    assert!(store.add_user(user(42, "Evil John")).is_ok());
    assert_eq!(store.get_user(42).map(|u| u.name.as_str()), Some("Evil John"));
    assert_eq!(store.get_user(43).map(|u| u.name.as_str()), Some("Jane Doe"));
}

#[test]
fn negative_ids_are_accepted() {
    let mut store = UserStore::new();
    assert!(store.add_user(user(-7, "Negative")).is_ok());
    assert_eq!(store.get_user(-7).map(|u| u.user_id), Some(-7));
}

#[test]
fn refused_add_leaves_other_users() {
    let mut store = UserStore::new();
    assert!(store.add_user(user(123, "Tarzan")).is_ok());
    assert!(store.add_user(user(0, "Nobody")).is_err());
    assert_eq!(store.get_user(123).map(|u| u.name.as_str()), Some("Tarzan"));
}

#[test]
fn adds_under_different_ids_commute() {
    let mut a = UserStore::new();
    assert!(a.add_user(user(1, "One")).is_ok());
    assert!(a.add_user(user(2, "Two")).is_ok());
    let mut b = UserStore::new();
    assert!(b.add_user(user(2, "Two")).is_ok());
    assert!(b.add_user(user(1, "One")).is_ok());
    for id in [1, 2, 3] {
        assert_eq!(a.get_user(id), b.get_user(id));
    }
}

#[test]
fn adding_the_same_user_twice_is_like_once() {
    let mut store = UserStore::new();
    assert!(store.add_user(user(5, "Five")).is_ok());
    assert!(store.add_user(user(5, "Five")).is_ok());
    assert_eq!(store.get_user(5), Some(&user(5, "Five")));
    assert!(store.get_user(6).is_none());
}

#[test]
fn history_of_adds_reads_back_the_last_write() {
    let mut store = UserStore::new();
    for (id, name) in [(7, "a"), (8, "b"), (0, "refused"), (7, "c"), (9, "d"), (7, "e")] {
        let _ = store.add_user(user(id, name));
    }
    assert_eq!(store.get_user(7).map(|u| u.name.as_str()), Some("e"));
    assert_eq!(store.get_user(8).map(|u| u.name.as_str()), Some("b"));
    assert_eq!(store.get_user(9).map(|u| u.name.as_str()), Some("d"));
    assert!(store.get_user(0).is_none());
    assert!(store.get_user(10).is_none());
}
