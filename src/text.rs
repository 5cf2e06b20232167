//! Reading user-written text: lines of a theme list, and the answers typed
//! at the voting client's prompts.

use vstd::prelude::*;
use crate::votes::VoteType;

verus! {

/// What `str::trim` leaves of a text: it drops leading and trailing
/// characters with the Unicode `White_Space` property.
pub uninterp spec fn trimmed(s: Seq<char>) -> Seq<char>;

/// What `str::to_lowercase` makes of a text.
pub uninterp spec fn lowered(s: Seq<char>) -> Seq<char>;

/// Relies on `str::trim` of std: leading and trailing whitespace removed.
#[verifier::external_body]
fn trim_of(s: &str) -> (r: &str)
    ensures
        r@ == trimmed(s@),
{
    s.trim()
}

/// Relies on `str::to_lowercase` of std: the lowercase form of the text.
#[verifier::external_body]
fn lowercase_of(s: &str) -> (r: String)
    ensures
        r@ == lowered(s@),
{
    s.to_lowercase()
}

/// The theme that a trimmed line of a theme list holds: none for a blank
/// line or a comment line (one starting with `#`).
pub open spec fn entry_of(t: Seq<char>) -> Option<Seq<char>> {
    if t.len() == 0 || t[0] == '#' {
        None
    } else {
        Some(t)
    }
}

/// The theme that an already trimmed line holds; see `entry_of`.
pub fn entry_of_trimmed(t: &str) -> (r: Option<String>)
    ensures
        match entry_of(t@) {
            None => r is None,
            Some(e) => r matches Some(s) && s@ == e,
        },
{
    if t.unicode_len() == 0 || t.get_char(0) == '#' {
        None
    } else {
        Some(t.to_owned())
    }
}

/// The theme that a line of a theme list holds, once trimmed.
pub fn theme_entry(line: &str) -> (r: Option<String>)
    ensures
        match entry_of(trimmed(line@)) {
            None => r is None,
            Some(e) => r matches Some(s) && s@ == e,
        },
{
    entry_of_trimmed(trim_of(line))
}

/// An answer at the voting prompt.
#[derive(Debug, Clone, Copy, PartialEq, Eq, Structural)]
pub enum MenuChoice {
    Vote(VoteType),
    Quit,
    Results,
    Invalid,
}

/// The choice that a trimmed, lowercased answer names: a word or its first
/// letter.
pub open spec fn choice_of(a: Seq<char>) -> MenuChoice {
    if a == "y"@ || a == "yes"@ {
        MenuChoice::Vote(VoteType::Yes)
    } else if a == "n"@ || a == "no"@ {
        MenuChoice::Vote(VoteType::No)
    } else if a == "s"@ || a == "skip"@ {
        MenuChoice::Vote(VoteType::Skip)
    } else if a == "q"@ || a == "quit"@ {
        MenuChoice::Quit
    } else if a == "r"@ || a == "results"@ {
        MenuChoice::Results
    } else {
        MenuChoice::Invalid
    }
}

/// Whether `a` is one of the two words.
fn is_either(a: &String, x: &str, y: &str) -> (r: bool)
    ensures
        r == (a@ == x@ || a@ == y@),
{
    *a == x.to_owned() || *a == y.to_owned()
}

/// The choice that a normalized answer names; see `choice_of`.
pub fn choice_of_normalized(a: &String) -> (r: MenuChoice)
    ensures
        r == choice_of(a@),
{
    if is_either(a, "y", "yes") {
        MenuChoice::Vote(VoteType::Yes)
    } else if is_either(a, "n", "no") {
        MenuChoice::Vote(VoteType::No)
    } else if is_either(a, "s", "skip") {
        MenuChoice::Vote(VoteType::Skip)
    } else if is_either(a, "q", "quit") {
        MenuChoice::Quit
    } else if is_either(a, "r", "results") {
        MenuChoice::Results
    } else {
        MenuChoice::Invalid
    }
}

/// The choice that a typed line names, after trimming and lowercasing it.
pub fn read_choice(input: &str) -> (r: MenuChoice)
    ensures
        r == choice_of(lowered(trimmed(input@))),
{
    let lowered = lowercase_of(trim_of(input));
    choice_of_normalized(&lowered)
}

/// Whether a normalized answer to "view results?" accepts: anything but an
/// answer starting with `n`.
pub fn accepts_normalized(a: &String) -> (r: bool)
    ensures
        r == !(a@.len() > 0 && a@[0] == 'n'),
{
    let s = a.as_str();
    !(s.unicode_len() > 0 && s.get_char(0) == 'n')
}

/// Whether a typed answer to "view results?" accepts, after trimming and
/// lowercasing it; see `accepts_normalized`.
pub fn accepts(input: &str) -> (r: bool)
    ensures
        r == !(lowered(trimmed(input@)).len() > 0 && lowered(trimmed(input@))[0] == 'n'),
{
    let lowered = lowercase_of(trim_of(input));
    accepts_normalized(&lowered)
}

} // verus!
