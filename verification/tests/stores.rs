use session_registry::code::{allocate, allocate_from, draw_code};
use session_registry::error::RegistryError;
use session_registry::membership::MembershipStore;
use session_registry::sessions::SessionStore;
use session_registry::string_set::StringSet;

fn strings(items: &[&str]) -> Vec<String> {
    items.iter().map(|s| s.to_string()).collect()
}

#[test]
fn string_set_insert_reports_new_elements() {
    let mut set = StringSet::new();
    assert_eq!(set.len(), 0);
    assert!(!set.contains("a"));
    assert!(set.insert("a".to_string()));
    assert!(set.contains("a"));
    assert!(!set.insert("a".to_string()));
    assert!(set.insert("b".to_string()));
    assert!(set.insert("".to_string()));
    assert_eq!(set.len(), 3);
    let mut items = set.to_vec();
    items.sort();
    assert_eq!(items, strings(&["", "a", "b"]));
}

#[test]
fn allocate_mints_a_new_code() {
    let mut set = StringSet::new();
    assert!(set.insert("AB12x".to_string()));
    let code = allocate(&mut set, 10).expect("a code");
    assert_ne!(code, "AB12x");
    assert_eq!(code.chars().count(), 5);
    assert!(code.chars().all(|c| c.is_ascii_alphanumeric()));
    assert!(set.contains(&code));
    assert!(set.contains("AB12x"));
    assert_eq!(set.len(), 2);
}

#[test]
fn allocate_without_attempts_changes_nothing() {
    let mut set = StringSet::new();
    assert_eq!(allocate(&mut set, 0), None);
    assert_eq!(set.len(), 0);
}

#[test]
fn allocate_draws_different_codes() {
    let mut set = StringSet::new();
    let mut seen: Vec<String> = Vec::new();
    for _ in 0..50 {
        let code = allocate(&mut set, usize::MAX).expect("a code");
        assert!(!seen.contains(&code));
        seen.push(code);
    }
    assert_eq!(set.len(), 50);
}

#[test]
fn allocate_from_takes_the_first_new_candidate() {
    let mut set = StringSet::new();
    assert!(set.insert("AB12x".to_string()));
    assert!(set.insert("CD34y".to_string()));
    let draws = strings(&["AB12x", "CD34y", "AB12x", "EF56z", "GH78w"]);
    assert_eq!(allocate_from(&mut set, &draws), Some("EF56z".to_string()));
    assert!(set.contains("EF56z"));
    assert!(!set.contains("GH78w"));
    assert_eq!(set.len(), 3);
    assert_eq!(allocate_from(&mut set, &draws), Some("GH78w".to_string()));
    assert_eq!(set.len(), 4);
}

#[test]
fn allocate_from_gives_up_when_all_are_taken() {
    let mut set = StringSet::new();
    assert!(set.insert("AB12x".to_string()));
    let draws = strings(&["AB12x", "AB12x"]);
    assert_eq!(allocate_from(&mut set, &draws), None);
    assert_eq!(allocate_from(&mut set, &Vec::new()), None);
    assert_eq!(set.len(), 1);
    assert_eq!(set.to_vec(), strings(&["AB12x"]));
}

#[test]
fn session_store_registers_each_code_once() {
    let mut store = SessionStore::new();
    assert_eq!(store.len(), 0);
    assert!(store.register("AB12x".to_string()));
    assert!(!store.register("AB12x".to_string()));
    assert!(store.contains("AB12x"));
    assert!(!store.contains("AB12"));
    assert_eq!(store.len(), 1);
    assert_eq!(store.list(), strings(&["AB12x"]));
}

#[test]
fn session_store_creates_live_codes() {
    let mut store = SessionStore::new();
    let first = store.create().expect("a code");
    let second = store.create().expect("a code");
    assert_ne!(first, second);
    assert!(store.contains(&first));
    assert!(store.contains(&second));
    assert_eq!(store.len(), 2);
    assert_eq!(store.create_within(0), Err(RegistryError::CodesExhausted));
    assert_eq!(store.len(), 2);
}

#[test]
fn membership_store_counts_each_player_once() {
    let mut store = MembershipStore::new();
    assert_eq!(store.member_count("AB12x"), 0);
    assert!(store.members_of("AB12x").is_empty());
    assert!(store.add_player("AB12x", "alice"));
    assert_eq!(store.member_count("AB12x"), 1);
    assert!(!store.add_player("AB12x", "alice"));
    assert_eq!(store.member_count("AB12x"), 1);
    assert!(store.add_player("AB12x", "bob"));
    assert!(store.add_player("ZZZZZ", "bob"));
    assert_eq!(store.member_count("AB12x"), 2);
    assert_eq!(store.member_count("ZZZZZ"), 1);
    let mut members = store.members_of("AB12x");
    members.sort();
    assert_eq!(members, strings(&["alice", "bob"]));
    assert_eq!(store.members_of("ZZZZZ"), strings(&["bob"]));
}

#[test]
fn drawn_codes_have_five_letters_or_digits() {
    for _ in 0..500 {
        let code = draw_code();
        assert_eq!(code.len(), 5);
        assert_eq!(code.chars().count(), 5);
        assert!(code.chars().all(|c| c.is_ascii_alphanumeric()), "not a code: {:?}", code);
    }
}

#[test]
fn allocate_succeeds_where_no_draw_can_collide() {
    let mut empty = StringSet::new();
    assert!(allocate(&mut empty, 1).is_some());
    assert_eq!(empty.len(), 1);
    let mut malformed = StringSet::new();
    assert!(malformed.insert("abc".to_string()));
    assert!(malformed.insert("AB12xy".to_string()));
    assert!(malformed.insert("AB 2x".to_string()));
    let code = allocate(&mut malformed, 1).expect("a code");
    assert!(malformed.contains(&code));
    assert_eq!(malformed.len(), 4);
    let mut store = SessionStore::new();
    assert!(store.create_within(1).is_ok());
}
