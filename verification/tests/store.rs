use std::cell::Cell;

use user_cache::lookup::LookupResult;
use user_cache::repository::{FixedUserRepository, UserRepository};
use user_cache::store::UserStore;
use user_cache::user::User;

/// A source that counts how often it is asked and knows the ids of even
/// length: the record has the id that was asked for and, as age, ten times the
/// number of characters in it.
struct EvenSource {
    asked: Cell<usize>,
}

impl UserRepository for EvenSource {
    fn search(&self, id: &str) -> Option<User> {
        self.asked.set(self.asked.get() + 1);
        let length = id.chars().count();
        if length % 2 == 0 {
            Some(User::new(id, 10 * length as u32))
        } else {
            None
        }
    }
}

fn cached_record(result: Option<LookupResult>) -> (String, u32) {
    match result {
        Some(LookupResult::Cached(user)) => (user.id, user.age),
        Some(LookupResult::Fresh(user)) => panic!("a fresh record came out of the store: {:?}", user),
        None => panic!("no record"),
    }
}

#[test]
fn new_store_is_empty() {
    let store = UserStore::new();
    assert_eq!(store.len(), 0);
    assert!(!store.contains("1"));
    assert!(!store.contains(""));
    assert!(store.get("1").is_none());
}

#[test]
fn insert_stores_and_replaces() {
    let mut store = UserStore::new();
    store.insert("k", User::new("k", 1));
    assert_eq!(store.len(), 1);
    assert!(store.contains("k"));
    assert_eq!(store.get("k").map(|user| (user.id, user.age)), Some(("k".to_string(), 1)));
    store.insert("k", User::new("k", 2));
    assert_eq!(store.len(), 1);
    assert_eq!(store.get("k").map(|user| (user.id, user.age)), Some(("k".to_string(), 2)));
    store.insert("l", User::new("other", 3));
    assert_eq!(store.len(), 2);
    assert_eq!(store.get("l").map(|user| (user.id, user.age)), Some(("other".to_string(), 3)));
    assert_eq!(store.get("k").map(|user| (user.id, user.age)), Some(("k".to_string(), 2)));
    assert!(!store.contains("other"));
}

#[test]
fn get_hands_out_a_copy() {
    let mut store = UserStore::new();
    store.insert("k", User::new("k", 1));
    let mut copy = store.get("k").unwrap();
    copy.age = 99;
    copy.id.push('!');
    assert_eq!(store.get("k").map(|user| (user.id, user.age)), Some(("k".to_string(), 1)));
}

#[test]
fn populate_keeps_the_first_record() {
    let mut store = UserStore::new();
    let kept = store.populate("k", User::new("k", 1));
    assert_eq!(cached_record(Some(kept)), ("k".to_string(), 1));
    assert_eq!(store.len(), 1);
    let kept = store.populate("k", User::new("k", 2));
    assert_eq!(cached_record(Some(kept)), ("k".to_string(), 1));
    assert_eq!(store.len(), 1);
    assert_eq!(store.get("k").map(|user| user.age), Some(1));
    let kept = store.populate("m", User::new("m", 3));
    assert_eq!(cached_record(Some(kept)), ("m".to_string(), 3));
    assert_eq!(store.len(), 2);
    assert_eq!(store.get("k").map(|user| user.age), Some(1));
}

#[test]
fn settle_stores_a_record_for_a_new_id() {
    let mut store = UserStore::new();
    let result = store.settle("k", Some(User::new("k", 7)));
    assert_eq!(cached_record(result), ("k".to_string(), 7));
    assert_eq!(store.len(), 1);
    assert_eq!(store.get("k").map(|user| user.age), Some(7));
}

#[test]
fn settle_leaves_the_store_alone_on_absence() {
    let mut store = UserStore::new();
    store.insert("other", User::new("other", 1));
    assert!(store.settle("k", None).is_none());
    assert_eq!(store.len(), 1);
    assert!(!store.contains("k"));
}

#[test]
fn settle_answers_from_the_store_where_it_can() {
    let mut store = UserStore::new();
    store.insert("k", User::new("k", 1));
    let result = store.settle("k", Some(User::new("k", 2)));
    assert_eq!(cached_record(result), ("k".to_string(), 1));
    let result = store.settle("k", None);
    assert_eq!(cached_record(result), ("k".to_string(), 1));
    assert_eq!(store.len(), 1);
}

#[test]
fn fixed_source_through_a_store() {
    let source = FixedUserRepository;
    let mut store = UserStore::new();
    assert_eq!(cached_record(store.search("1", &source)), ("1".to_string(), 20));
    assert_eq!(cached_record(store.search("1", &source)), ("1".to_string(), 20));
    assert!(store.search("2", &source).is_none());
    assert!(store.search("2", &source).is_none());
    assert_eq!(store.len(), 1);
    assert!(store.contains("1"));
    assert!(!store.contains("2"));
}

#[test]
fn search_asks_the_source_only_on_a_miss() {
    let source = EvenSource { asked: Cell::new(0) };
    let mut store = UserStore::new();
    assert_eq!(cached_record(store.search("ab", &source)), ("ab".to_string(), 20));
    assert_eq!(source.asked.get(), 1);
    assert_eq!(cached_record(store.search("ab", &source)), ("ab".to_string(), 20));
    assert_eq!(cached_record(store.search("ab", &source)), ("ab".to_string(), 20));
    assert_eq!(source.asked.get(), 1);
    assert_eq!(cached_record(store.search("abcd", &source)), ("abcd".to_string(), 40));
    assert_eq!(source.asked.get(), 2);
    assert_eq!(store.len(), 2);
}

#[test]
fn search_asks_again_after_absence() {
    let source = EvenSource { asked: Cell::new(0) };
    let mut store = UserStore::new();
    assert!(store.search("abc", &source).is_none());
    assert!(!store.contains("abc"));
    assert_eq!(store.len(), 0);
    assert_eq!(source.asked.get(), 1);
    assert!(store.search("abc", &source).is_none());
    assert_eq!(source.asked.get(), 2);
    assert_eq!(store.len(), 0);
}

#[test]
fn search_prefers_the_store_to_the_source() {
    let source = EvenSource { asked: Cell::new(0) };
    let mut store = UserStore::new();
    store.insert("abc", User::new("seeded", 5));
    store.insert("ab", User::new("seeded too", 6));
    assert_eq!(cached_record(store.search("abc", &source)), ("seeded".to_string(), 5));
    assert_eq!(cached_record(store.search("ab", &source)), ("seeded too".to_string(), 6));
    assert_eq!(source.asked.get(), 0);
}

#[test]
fn ids_are_compared_character_by_character() {
    let source = EvenSource { asked: Cell::new(0) };
    let mut store = UserStore::new();
    assert_eq!(cached_record(store.search("", &source)), ("".to_string(), 0));
    assert_eq!(cached_record(store.search("éé", &source)), ("éé".to_string(), 20));
    assert_eq!(cached_record(store.search("Éé", &source)), ("Éé".to_string(), 20));
    assert!(store.search("é", &source).is_none());
    assert_eq!(store.len(), 3);
    assert!(store.contains(""));
    assert!(store.contains("éé"));
    assert!(!store.contains("ee"));
    assert!(!store.contains("éé "));
}
