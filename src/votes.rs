//! Vote kinds and the validation of a submitted vote.

use vstd::prelude::*;

verus! {

/// The three accepted answers.
#[derive(Debug, Clone, Copy, PartialEq, Eq, Structural)]
pub enum VoteType {
    Yes,
    No,
    Skip,
}

/// Why a vote was refused.
#[derive(Debug, Clone, Copy, PartialEq, Eq, Structural)]
pub enum VoteError {
    InvalidType,
    UnknownTheme,
}

/// The word that names each vote kind on the wire and in storage.
pub open spec fn vote_word(t: VoteType) -> Seq<char> {
    match t {
        VoteType::Yes => "yes"@,
        VoteType::No => "no"@,
        VoteType::Skip => "skip"@,
    }
}

/// The vote kind that a word names, if any.
pub open spec fn vote_type_of(s: Seq<char>) -> Option<VoteType> {
    if s == "yes"@ {
        Some(VoteType::Yes)
    } else if s == "no"@ {
        Some(VoteType::No)
    } else if s == "skip"@ {
        Some(VoteType::Skip)
    } else {
        None
    }
}

/// The outcome of validating a vote of kind `word` on a theme that does or
/// does not exist: the kind is checked first, then the theme.
pub open spec fn vote_check(word: Seq<char>, theme_exists: bool) -> Result<VoteType, VoteError> {
    match vote_type_of(word) {
        None => Err(VoteError::InvalidType),
        Some(t) => if theme_exists {
            Ok(t)
        } else {
            Err(VoteError::UnknownTheme)
        },
    }
}

impl VoteType {
    /// The word for this kind.
    pub fn as_str(&self) -> (r: &'static str)
        ensures
            r@ == vote_word(*self),
    {
        match self {
            VoteType::Yes => "yes",
            VoteType::No => "no",
            VoteType::Skip => "skip",
        }
    }
}

/// Reads a vote kind from its word; anything but `yes`, `no` or `skip` is `None`.
pub fn parse_vote_type(s: &str) -> (r: Option<VoteType>)
    ensures
        r == vote_type_of(s@),
{
    let owned = s.to_owned();
    if owned == "yes".to_owned() {
        Some(VoteType::Yes)
    } else if owned == "no".to_owned() {
        Some(VoteType::No)
    } else if owned == "skip".to_owned() {
        Some(VoteType::Skip)
    } else {
        None
    }
}

/// Validates a submitted vote: its kind must be one of the three words, and
/// its theme must exist.
pub fn check_vote(vote_type: &str, theme_exists: bool) -> (r: Result<VoteType, VoteError>)
    ensures
        r == vote_check(vote_type@, theme_exists),
{
    match parse_vote_type(vote_type) {
        None => Err(VoteError::InvalidType),
        Some(t) => if theme_exists {
            Ok(t)
        } else {
            Err(VoteError::UnknownTheme)
        },
    }
}

} // verus!
