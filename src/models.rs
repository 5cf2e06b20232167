//! Plain records exchanged between the voting client, the server and storage.

use vstd::prelude::*;

verus! {

/// A single text item subject to voting.
#[derive(Debug, Clone)]
pub struct Theme {
    pub id: i32,
    pub content: String,
}

impl Theme {
    /// A field-by-field copy of this theme.
    pub fn duplicate(&self) -> (r: Theme)
        ensures
            r == *self,
    {
        Theme { id: self.id, content: self.content.clone() }
    }
}

/// One user's current judgment on one theme; `created_at` is in Unix seconds.
#[derive(Debug, Clone)]
pub struct Vote {
    pub id: i32,
    pub user_id: String,
    pub theme_id: i32,
    pub vote_type: String,
    pub created_at: i64,
}

/// The body of a vote submission.
#[derive(Debug, Clone)]
pub struct VoteRequest {
    pub theme_id: i32,
    pub vote_type: String,
}

/// What the server answers for "next theme": the chosen theme, if any is left,
/// with the size of the catalog and how many themes the user has seen.
#[derive(Debug, Clone)]
pub struct ThemeResponse {
    pub theme: Option<Theme>,
    pub total: i64,
    pub seen: i64,
}

/// Vote counts for one theme, as the administration view reports them.
#[derive(Debug, Clone)]
pub struct VoteStats {
    pub theme_id: i32,
    pub content: String,
    pub yes_votes: i64,
    pub no_votes: i64,
    pub skip_votes: i64,
    pub total_votes: i64,
}

/// One vote joined with its theme's text, as the export view reports it.
#[derive(Debug, Clone)]
pub struct ExportVote {
    pub user_id: String,
    pub theme_id: i32,
    pub theme_content: String,
    pub vote_type: String,
}

} // verus!
