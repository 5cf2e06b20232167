use theme_vote::models::Theme;
use theme_vote::selection::{candidate_count, contains_id, pick_theme, select_next, uniform_index, unseen_themes};
use theme_vote::store::ThemeStore;
use theme_vote::votes::{check_vote, parse_vote_type, VoteError, VoteType};

fn theme(id: i32, content: &str) -> Theme {
    Theme { id, content: content.to_string() }
}

fn two_theme_store() -> ThemeStore {
    let mut store = ThemeStore::new();
    assert!(store.add_theme(theme(1, "T1")));
    assert!(store.add_theme(theme(2, "T2")));
    store
}

#[test]
fn end_to_end_two_themes() {
    let mut store = two_theme_store();
    let user = "user-a".to_string();
    assert_eq!(store.candidate_count(&user), 2);
    let first = store.next_theme(&user, 1);
    assert_eq!(first.total, 2);
    assert_eq!(first.seen, 0);
    let t1 = first.theme.expect("a theme is left");
    assert!(t1.id == 1 || t1.id == 2);
    assert_eq!(store.record_vote(&user, t1.id, "yes", 100), Ok(()));

    assert_eq!(store.candidate_count(&user), 1);
    let second = store.next_theme(&user, 0);
    assert_eq!(second.total, 2);
    assert_eq!(second.seen, 1);
    let t2 = second.theme.expect("one theme is left");
    assert_ne!(t2.id, t1.id);
    assert_eq!(store.record_vote(&user, t2.id, "no", 101), Ok(()));

    assert_eq!(store.candidate_count(&user), 0);
    let third = store.next_theme(&user, 0);
    assert!(third.theme.is_none());
    assert_eq!(third.seen, 2);
    assert_eq!(third.total, 2);
}

#[test]
fn never_returns_a_seen_theme() {
    let mut store = ThemeStore::new();
    for id in 1..=5 {
        assert!(store.add_theme(theme(id, "x")));
    }
    let user = "u".to_string();
    store.record_vote(&user, 2, "skip", 1).unwrap();
    store.record_vote(&user, 4, "yes", 2).unwrap();
    assert_eq!(store.candidate_count(&user), 3);
    let mut ids = Vec::new();
    for index in 0..3u64 {
        let r = store.next_theme(&user, index);
        ids.push(r.theme.unwrap().id);
    }
    assert_eq!(ids, vec![1, 3, 5]);
}

#[test]
fn all_seen_gives_no_theme() {
    let mut store = two_theme_store();
    let user = "u".to_string();
    store.record_vote(&user, 1, "skip", 1).unwrap();
    store.record_vote(&user, 2, "skip", 1).unwrap();
    let r = store.next_theme(&user, 0);
    assert_eq!(r.seen, r.total);
    assert!(r.theme.is_none());
}

#[test]
fn other_users_votes_do_not_count() {
    let mut store = two_theme_store();
    store.record_vote(&"a".to_string(), 1, "yes", 1).unwrap();
    let r = store.next_theme(&"b".to_string(), 0);
    assert_eq!(r.seen, 0);
    assert_eq!(r.theme.unwrap().id, 1);
}

#[test]
fn revote_overwrites_single_row() {
    let mut store = two_theme_store();
    let user = "u".to_string();
    store.record_vote(&user, 1, "yes", 10).unwrap();
    store.record_vote(&user, 1, "no", 20).unwrap();
    let rows: Vec<_> = store.votes.iter().filter(|v| v.user_id == "u" && v.theme_id == 1).collect();
    assert_eq!(rows.len(), 1);
    assert_eq!(rows[0].vote_type, "no");
    assert_eq!(rows[0].created_at, 20);
    assert_eq!(rows[0].id, 1);
    assert_eq!(store.votes.len(), 1);
}

#[test]
fn invalid_vote_type_changes_nothing() {
    let mut store = two_theme_store();
    let user = "u".to_string();
    store.record_vote(&user, 1, "yes", 10).unwrap();
    assert_eq!(store.record_vote(&user, 1, "maybe", 11), Err(VoteError::InvalidType));
    assert_eq!(store.record_vote(&user, 2, "YES", 11), Err(VoteError::InvalidType));
    assert_eq!(store.votes.len(), 1);
    assert_eq!(store.votes[0].vote_type, "yes");
    assert_eq!(store.votes[0].created_at, 10);
}

#[test]
fn unknown_theme_is_refused() {
    let mut store = two_theme_store();
    assert_eq!(store.record_vote(&"u".to_string(), 9, "yes", 1), Err(VoteError::UnknownTheme));
    assert!(store.votes.is_empty());
}

#[test]
fn invalid_type_is_reported_before_unknown_theme() {
    assert_eq!(check_vote("nope", false), Err(VoteError::InvalidType));
    assert_eq!(check_vote("skip", false), Err(VoteError::UnknownTheme));
    assert_eq!(check_vote("no", true), Ok(VoteType::No));
}

#[test]
fn duplicate_theme_id_is_not_added() {
    let mut store = two_theme_store();
    assert!(!store.add_theme(theme(2, "again")));
    assert_eq!(store.themes.len(), 2);
    assert_eq!(store.themes[1].content, "T2");
}

#[test]
fn vote_words_parse() {
    assert_eq!(parse_vote_type("yes"), Some(VoteType::Yes));
    assert_eq!(parse_vote_type("no"), Some(VoteType::No));
    assert_eq!(parse_vote_type("skip"), Some(VoteType::Skip));
    assert_eq!(parse_vote_type(""), None);
    assert_eq!(parse_vote_type("yes "), None);
    assert_eq!(VoteType::Skip.as_str(), "skip");
}

#[test]
fn selection_over_plain_values() {
    let catalog = vec![theme(10, "a"), theme(20, "b"), theme(30, "c")];
    let seen = vec![20];
    let left = unseen_themes(&catalog, &seen);
    assert_eq!(left.iter().map(|t| t.id).collect::<Vec<_>>(), vec![10, 30]);
    assert_eq!(pick_theme(&left, 1).unwrap().id, 30);
    assert_eq!(pick_theme(&left, 0).unwrap().id, 10);
    assert!(pick_theme(&Vec::new(), 0).is_none());
    assert_eq!(candidate_count(&catalog, &seen), 2);
    let r = select_next(&catalog, &seen, 1);
    assert_eq!((r.total, r.seen), (3, 1));
    assert_eq!(r.theme.unwrap().id, 30);
    assert!(contains_id(&seen, 20));
    assert!(!contains_id(&seen, 10));
}

#[test]
fn first_pick_ranges_over_whole_catalog() {
    let catalog = vec![theme(1, "a"), theme(2, "b")];
    let r = select_next(&catalog, &Vec::new(), 1);
    assert_eq!(r.theme.unwrap().id, 2);
    assert_eq!(r.seen, 0);
}

#[test]
fn empty_catalog_has_nothing() {
    let store = ThemeStore::new();
    let r = store.next_theme(&"u".to_string(), 0);
    assert!(r.theme.is_none());
    assert_eq!((r.total, r.seen), (0, 0));
}

#[test]
fn rejection_draws_are_even() {
    assert_eq!(uniform_index(7, 3), Some(1));
    assert_eq!(uniform_index(0, 1), Some(0));
    assert_eq!(uniform_index(u64::MAX - 1, 1), Some(0));
    assert_eq!(uniform_index(u64::MAX, 1), None);
    // u64::MAX is a multiple of 3, so every draw below it is kept.
    assert_eq!(uniform_index(u64::MAX - 1, 3), Some((u64::MAX - 1) % 3));
    assert_eq!(uniform_index(u64::MAX, 3), None);
    // For 2 the largest multiple below u64::MAX is u64::MAX - 1.
    assert_eq!(uniform_index(u64::MAX - 2, 2), Some(1));
    assert_eq!(uniform_index(u64::MAX - 1, 2), None);
}
