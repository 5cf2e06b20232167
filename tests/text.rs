use theme_vote::text::{accepts, accepts_normalized, choice_of_normalized, entry_of_trimmed, read_choice, theme_entry, MenuChoice};
use theme_vote::votes::VoteType;

#[test]
fn theme_list_lines() {
    assert_eq!(theme_entry("  Gravity is optional \n"), Some("Gravity is optional".to_string()));
    assert_eq!(theme_entry("   "), None);
    assert_eq!(theme_entry(""), None);
    assert_eq!(theme_entry("  # a comment"), None);
    assert_eq!(theme_entry("Not # a comment"), Some("Not # a comment".to_string()));
    assert_eq!(entry_of_trimmed("#x"), None);
    assert_eq!(entry_of_trimmed("x"), Some("x".to_string()));
}

#[test]
fn menu_answers() {
    assert_eq!(read_choice(" Y\n"), MenuChoice::Vote(VoteType::Yes));
    assert_eq!(read_choice("yes"), MenuChoice::Vote(VoteType::Yes));
    assert_eq!(read_choice("NO\n"), MenuChoice::Vote(VoteType::No));
    assert_eq!(read_choice("s"), MenuChoice::Vote(VoteType::Skip));
    assert_eq!(read_choice("Skip"), MenuChoice::Vote(VoteType::Skip));
    assert_eq!(read_choice("q\n"), MenuChoice::Quit);
    assert_eq!(read_choice("Results"), MenuChoice::Results);
    assert_eq!(read_choice("maybe"), MenuChoice::Invalid);
    assert_eq!(read_choice(""), MenuChoice::Invalid);
    assert_eq!(choice_of_normalized(&"quit".to_string()), MenuChoice::Quit);
    assert_eq!(choice_of_normalized(&"Quit".to_string()), MenuChoice::Invalid);
}

#[test]
fn results_prompt() {
    assert!(accepts("\n"));
    assert!(accepts("y"));
    assert!(!accepts("  No\n"));
    assert!(!accepts("n"));
    assert!(accepts_normalized(&"yes".to_string()));
    assert!(!accepts_normalized(&"nope".to_string()));
    assert!(accepts_normalized(&"Nope".to_string()));
}
