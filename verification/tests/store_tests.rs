use git_profiles::profile::Profile;
use git_profiles::store::{ProfileStore, StoreError};

fn alice() -> Profile {
    Profile::new("Alice", "alice@x.com", "work")
}

fn bob() -> Profile {
    Profile::new("Bob", "bob@x.com", "home")
}

fn two_profiles() -> ProfileStore {
    let mut store = ProfileStore::new();
    store.add("Alice", "alice@x.com", "work").unwrap();
    store.add("Bob", "bob@x.com", "home").unwrap();
    store
}

#[test]
fn new_store_is_empty() {
    let store = ProfileStore::new();
    assert!(store.is_empty());
    assert_eq!(store.len(), 0);
    assert_eq!(store.list_all(), Vec::<Profile>::new());
    assert_eq!(store.find_one(None, None), None);
}

#[test]
fn added_profiles_are_listed_once_in_insertion_order() {
    let mut store = ProfileStore::new();
    assert_eq!(store.add("Alice", "alice@x.com", "work"), Ok(0));
    assert_eq!(store.list_all(), vec![alice()]);
    assert_eq!(store.add("Bob", "bob@x.com", "home"), Ok(1));
    assert_eq!(store.list_all(), vec![alice(), bob()]);
    assert_eq!(store.add("Carol", "carol@x.com", "lab"), Ok(2));
    let listed = store.list_all();
    assert_eq!(listed, vec![alice(), bob(), Profile::new("Carol", "carol@x.com", "lab")]);
    assert_eq!(listed.iter().filter(|p| **p == bob()).count(), 1);
    assert_eq!(store.len(), 3);
    assert!(!store.is_empty());
}

#[test]
fn identifiers_count_up_and_find_their_profile() {
    let store = two_profiles();
    assert_eq!(store.get(0), Some(alice()));
    assert_eq!(store.get(1), Some(bob()));
    assert_eq!(store.get(2), None);
}

#[test]
fn second_add_with_same_email_fails_and_changes_nothing() {
    let mut store = two_profiles();
    let before = store.list_all();
    assert_eq!(store.add("Alice Again", "alice@x.com", "other"), Err(StoreError::DuplicateEmail));
    assert_eq!(store.list_all(), before);
    assert_eq!(store.len(), 2);
}

#[test]
fn second_add_with_same_alias_fails_and_changes_nothing() {
    let mut store = two_profiles();
    let before = store.list_all();
    assert_eq!(store.add("Carol", "carol@x.com", "home"), Err(StoreError::DuplicateAlias));
    assert_eq!(store.list_all(), before);
    assert_eq!(store.len(), 2);
}

#[test]
fn email_collision_is_reported_before_alias_collision() {
    let mut store = two_profiles();
    assert_eq!(store.add("Bob", "bob@x.com", "home"), Err(StoreError::DuplicateEmail));
    assert_eq!(store.add("Bob", "bob@x.com", "work"), Err(StoreError::DuplicateEmail));
}

#[test]
fn empty_alias_may_be_held_by_several_profiles() {
    let mut store = ProfileStore::new();
    assert_eq!(store.add("Alice", "alice@x.com", ""), Ok(0));
    assert_eq!(store.add("Bob", "bob@x.com", ""), Ok(1));
    assert_eq!(store.len(), 2);
    assert!(!store.has_alias(""));
}

#[test]
fn same_name_may_be_held_by_several_profiles() {
    let mut store = ProfileStore::new();
    assert_eq!(store.add("Alice", "alice@x.com", "work"), Ok(0));
    assert_eq!(store.add("Alice", "alice@home.org", "home"), Ok(1));
}

#[test]
fn keys_are_compared_exactly() {
    let mut store = two_profiles();
    assert!(store.has_email("alice@x.com"));
    assert!(!store.has_email("alice@x.co"));
    assert!(!store.has_email("Alice@x.com"));
    assert!(store.has_alias("work"));
    assert!(!store.has_alias("wor"));
    assert_eq!(store.add("Al", "alice@x.co", "wor"), Ok(2));
}

#[test]
fn find_one_without_filters_returns_first_inserted() {
    let store = two_profiles();
    assert_eq!(store.find_one(Some(""), Some("")), Some(alice()));
    assert_eq!(store.find_one(None, None), Some(alice()));
    assert_eq!(store.find_one(Some(""), None), Some(alice()));
    assert_eq!(store.find_one(None, Some("bob@x.com")), Some(alice()));
}

#[test]
fn find_one_matches_alias_by_substring() {
    for alias in ["engineering", "eng", "my-eng-box"] {
        let mut store = ProfileStore::new();
        store.add("Dev", "dev@x.com", alias).unwrap();
        assert_eq!(
            store.find_one(Some("eng"), Some("")),
            Some(Profile::new("Dev", "dev@x.com", alias))
        );
    }
    let mut store = ProfileStore::new();
    store.add("Des", "des@x.com", "design").unwrap();
    assert_eq!(store.find_one(Some("eng"), Some("")), None);
}

#[test]
fn find_one_returns_first_match_in_storage_order() {
    let mut store = ProfileStore::new();
    store.add("Des", "des@x.com", "design").unwrap();
    store.add("Eng", "eng@x.com", "engineering").unwrap();
    store.add("Short", "short@x.com", "eng").unwrap();
    assert_eq!(
        store.find_one(Some("eng"), Some("")),
        Some(Profile::new("Eng", "eng@x.com", "engineering"))
    );
    assert_eq!(store.find_one(Some("sig"), None), Some(Profile::new("Des", "des@x.com", "design")));
}

#[test]
fn find_one_matches_email_exactly() {
    let store = two_profiles();
    assert_eq!(store.find_one(Some("zzz"), Some("bob@x.com")), Some(bob()));
    assert_eq!(store.find_one(Some("zzz"), Some("bob@x.co")), None);
    assert_eq!(store.find_one(Some("zzz"), Some("ob@x.com")), None);
    assert_eq!(store.find_one(Some("zzz"), Some("BOB@x.com")), None);
}

#[test]
fn find_one_takes_either_filter() {
    let store = two_profiles();
    // The alias filter picks Bob, the e-mail filter picks Alice: Alice is first.
    assert_eq!(store.find_one(Some("home"), Some("alice@x.com")), Some(alice()));
    assert_eq!(store.find_one(Some("home"), Some("nobody@x.com")), Some(bob()));
    assert_eq!(store.find_one(Some("home"), None), Some(bob()));
}

#[test]
fn find_one_is_case_sensitive_and_literal() {
    let store = two_profiles();
    assert_eq!(store.find_one(Some("HOME"), None), None);
    assert_eq!(store.find_one(Some("h_me"), None), None);
    assert_eq!(store.find_one(Some("%"), None), None);
}

#[test]
fn find_one_without_match_returns_nothing() {
    let store = two_profiles();
    assert_eq!(store.find_one(Some("nonexistent"), None), None);
    assert_eq!(store.find_one(Some("nonexistent"), Some("")), None);
}

#[test]
fn absent_email_filter_is_the_empty_address() {
    let mut store = two_profiles();
    store.add("Nobody", "", "blank").unwrap();
    assert_eq!(store.find_one(Some("zzz"), None), Some(Profile::new("Nobody", "", "blank")));
}

#[test]
fn from_rows_keeps_rows_with_unique_keys() {
    let store = ProfileStore::from_rows(vec![alice(), bob()]).unwrap();
    assert_eq!(store.list_all(), vec![alice(), bob()]);
    let empty = ProfileStore::from_rows(Vec::new()).unwrap();
    assert!(empty.is_empty());
}

#[test]
fn from_rows_reports_first_collision() {
    let rows = vec![alice(), bob(), Profile::new("Carol", "carol@x.com", "work"), alice()];
    assert_eq!(ProfileStore::from_rows(rows).err(), Some(StoreError::DuplicateAlias));
    let rows = vec![alice(), Profile::new("Al", "alice@x.com", "al"), bob()];
    assert_eq!(ProfileStore::from_rows(rows).err(), Some(StoreError::DuplicateEmail));
}

#[test]
fn store_errors_have_diagnostics() {
    assert_eq!(
        StoreError::DuplicateEmail.message(),
        "Error adding new profile to DB.: the email is already taken"
    );
    assert_eq!(
        StoreError::DuplicateAlias.message(),
        "Error adding new profile to DB.: the alias is already taken"
    );
}

#[test]
fn profile_copies_hold_the_same_strings() {
    let p = alice();
    assert_eq!(p.duplicate(), p);
    assert_eq!(p.name, "Alice");
    assert_eq!(p.email, "alice@x.com");
    assert_eq!(p.alias, "work");
    assert!(p.has_alias());
    assert!(!Profile::new("A", "a@x.com", "").has_alias());
}
