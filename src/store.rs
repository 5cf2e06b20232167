//! The theme catalog and the vote table: at most one current vote per
//! (user, theme), recorded by upsert, and the per-user choice of the next
//! unseen theme.

use vstd::prelude::*;
use crate::models::{Theme, ThemeResponse, Vote};
use crate::selection::{candidate_count, index_fits, lemma_unseen_facts, pick_from, select_next, unseen};
use crate::votes::{check_vote, vote_type_of, VoteError};

verus! {

/// Whether the catalog holds a theme with this id.
pub open spec fn has_theme(themes: Seq<Theme>, id: i32) -> bool {
    exists|j: int| 0 <= j < themes.len() && #[trigger] themes[j].id == id
}

/// Whether row `i` of the vote table is the vote of `user` on `theme`.
pub open spec fn is_row(votes: Seq<Vote>, i: int, user: Seq<char>, theme: i32) -> bool {
    0 <= i < votes.len() && votes[i].user_id@ == user && votes[i].theme_id == theme
}

/// The ids of the themes that `user` has voted on, whatever the vote.
pub open spec fn seen_by(votes: Seq<Vote>, user: Seq<char>) -> Set<i32> {
    Set::new(|id: i32| exists|i: int| is_row(votes, i, user, id))
}

/// `new` is the vote table `old` after the vote `word` of `user` on `theme`
/// was recorded at time `now`: the row for that pair is overwritten in place
/// if there is one (keeping its id), else a row is appended whose id is one
/// more than the number of rows before it. No other row changes.
pub open spec fn recorded(
    old: Seq<Vote>,
    new: Seq<Vote>,
    user: Seq<char>,
    theme: i32,
    word: Seq<char>,
    now: i64,
) -> bool {
    if exists|i: int| is_row(old, i, user, theme) {
        let i = choose|i: int| is_row(old, i, user, theme);
        &&& new.len() == old.len()
        &&& new[i].id == old[i].id
        &&& new[i].user_id == old[i].user_id
        &&& new[i].theme_id == theme
        &&& new[i].vote_type@ == word
        &&& new[i].created_at == now
        &&& forall|j: int| 0 <= j < old.len() && j != i ==> new[j] == old[j]
    } else {
        &&& new.len() == old.len() + 1
        &&& forall|j: int| 0 <= j < old.len() ==> new[j] == old[j]
        &&& new[old.len() as int].id == old.len() + 1
        &&& new[old.len() as int].user_id@ == user
        &&& new[old.len() as int].theme_id == theme
        &&& new[old.len() as int].vote_type@ == word
        &&& new[old.len() as int].created_at == now
    }
}

/// The theme catalog together with the table of current votes.
pub struct ThemeStore {
    pub themes: Vec<Theme>,
    pub votes: Vec<Vote>,
}

impl ThemeStore {
    /// Theme ids are distinct; each (user, theme) pair has at most one row;
    /// every row names a theme of the catalog and a valid vote kind.
    pub open spec fn wf(&self) -> bool {
        &&& forall|i: int, j: int|
            0 <= i < j < self.themes.len() ==> self.themes@[i].id != self.themes@[j].id
        &&& forall|i: int, j: int|
            0 <= i < j < self.votes.len() ==> !(self.votes@[i].user_id@ == self.votes@[j].user_id@
                && self.votes@[i].theme_id == self.votes@[j].theme_id)
        &&& forall|i: int|
            0 <= i < self.votes.len() ==> has_theme(self.themes@, #[trigger] self.votes@[i].theme_id)
                && vote_type_of(self.votes@[i].vote_type@) is Some
    }

    /// An empty catalog with no votes.
    pub fn new() -> (r: ThemeStore)
        ensures
            r.wf(),
            r.themes@.len() == 0,
            r.votes@.len() == 0,
    {
        ThemeStore { themes: Vec::new(), votes: Vec::new() }
    }

    /// Whether the catalog holds a theme with this id.
    pub fn theme_exists(&self, id: i32) -> (r: bool)
        ensures
            r == has_theme(self.themes@, id),
    {
        let mut i: usize = 0;
        while i < self.themes.len()
            invariant
                i <= self.themes.len(),
                forall|j: int| 0 <= j < i ==> self.themes@[j].id != id,
            decreases self.themes.len() - i,
        {
            if self.themes[i].id == id {
                return true;
            }
            i = i + 1;
        }
        false
    }

    /// Adds a theme to the catalog unless its id is already taken; returns
    /// whether it was added.
    pub fn add_theme(&mut self, theme: Theme) -> (r: bool)
        requires
            old(self).wf(),
        ensures
            final(self).wf(),
            r == !has_theme(old(self).themes@, theme.id),
            r ==> final(self).themes@ == old(self).themes@.push(theme),
            !r ==> final(self).themes@ == old(self).themes@,
            final(self).votes@ == old(self).votes@,
    {
        if self.theme_exists(theme.id) {
            return false;
        }
        let ghost before = self.themes@;
        self.themes.push(theme);
        assert forall|i: int, j: int|
            0 <= i < j < self.themes.len() implies self.themes@[i].id != self.themes@[j].id by {
            assert(self.themes@[i] == before[i]);
            if j < before.len() {
                assert(self.themes@[j] == before[j]);
            }
        }
        assert forall|i: int|
            0 <= i < self.votes.len() implies has_theme(self.themes@, #[trigger] self.votes@[i].theme_id) by {
            let j = choose|j: int| 0 <= j < before.len() && #[trigger] before[j].id == self.votes@[i].theme_id;
            assert(self.themes@[j] == before[j]);
        }
        true
    }

    /// The ids of the themes that `user` has voted on, each once.
    pub fn voted_theme_ids(&self, user: &String) -> (r: Vec<i32>)
        requires
            self.wf(),
        ensures
            r@.to_set() == seen_by(self.votes@, user@),
            r@.no_duplicates(),
            r.len() <= self.votes.len(),
    {
        let mut ids: Vec<i32> = Vec::new();
        let ghost mut rows: Seq<int> = Seq::empty();
        let mut i: usize = 0;
        while i < self.votes.len()
            invariant
                self.wf(),
                i <= self.votes.len(),
                ids.len() <= i,
                rows.len() == ids.len(),
                forall|k: int|
                    #![trigger rows[k]]
                    0 <= k < ids.len() ==> rows[k] < i && is_row(
                        self.votes@,
                        rows[k],
                        user@,
                        ids@[k],
                    ),
                forall|k: int, l: int| 0 <= k < l < ids.len() ==> rows[k] < rows[l],
                forall|j: int|
                    0 <= j < i && self.votes@[j].user_id@ == user@ ==> ids@.contains(
                        #[trigger] self.votes@[j].theme_id,
                    ),
            decreases self.votes.len() - i,
        {
            let ghost before = ids@;
            let ghost rows_before = rows;
            if self.votes[i].user_id == *user {
                ids.push(self.votes[i].theme_id);
                proof {
                    rows = rows.push(i as int);
                    assert forall|k: int| #![trigger rows[k]] 0 <= k < ids.len() implies rows[k] < i + 1 && is_row(
                        self.votes@, rows[k], user@, ids@[k]) by {
                        if k < before.len() {
                            assert(ids@[k] == before[k] && rows[k] == rows_before[k]);
                            assert(is_row(self.votes@, rows_before[k], user@, before[k]));
                        }
                    }
                    assert forall|k: int, l: int| 0 <= k < l < ids.len() implies rows[k] < rows[l] by {
                        assert(rows[k] == rows_before[k]);
                        if l < before.len() {
                            assert(rows[l] == rows_before[l]);
                        } else {
                            assert(is_row(self.votes@, rows_before[k], user@, before[k]));
                        }
                    }
                }
                assert(is_row(self.votes@, i as int, user@, ids@[ids.len() - 1]));
                assert(ids@.contains(ids@[ids.len() - 1]));
            }
            assert forall|j: int|
                0 <= j < i + 1 && self.votes@[j].user_id@ == user@ implies ids@.contains(
                    #[trigger] self.votes@[j].theme_id) by {
                if j < i {
                    let k = choose|k: int| 0 <= k < before.len() && before[k] == self.votes@[j].theme_id;
                    assert(ids@[k] == before[k]);
                }
            }
            i = i + 1;
        }
        assert(ids@.no_duplicates()) by {
            assert forall|k: int, l: int| 0 <= k < ids.len() && 0 <= l < ids.len() && k != l implies ids@[k] != ids@[l] by {
                assert(is_row(self.votes@, rows[k], user@, ids@[k]));
                assert(is_row(self.votes@, rows[l], user@, ids@[l]));
                if k < l {
                    assert(rows[k] < rows[l]);
                } else {
                    assert(rows[l] < rows[k]);
                }
            }
        }
        assert(ids@.to_set() =~= seen_by(self.votes@, user@)) by {
            assert forall|id: i32| #[trigger] seen_by(self.votes@, user@).contains(id) implies ids@.contains(id) by {
                let j = choose|j: int| is_row(self.votes@, j, user@, id);
                assert(ids@.contains(self.votes@[j].theme_id));
            }
            assert forall|id: i32| ids@.contains(id) implies #[trigger] seen_by(self.votes@, user@).contains(id) by {
                let k = choose|k: int| 0 <= k < ids.len() && ids@[k] == id;
                assert(is_row(self.votes@, rows[k], user@, ids@[k]));
            }
        }
        ids
    }

    /// How many themes `user` has not voted on: the range from which the
    /// index given to `next_theme` is drawn.
    pub fn candidate_count(&self, user: &String) -> (r: usize)
        requires
            self.wf(),
        ensures
            r == unseen(self.themes@, seen_by(self.votes@, user@)).len(),
    {
        let seen = self.voted_theme_ids(user);
        candidate_count(&self.themes, &seen)
    }

    /// The next theme for `user`: the one at position `index` (drawn
    /// uniformly below `candidate_count`) among the themes the user has not
    /// voted on, in catalog order, or none once the user has voted on every
    /// theme. `total` is the size of the catalog and `seen` the number of
    /// themes the user has voted on.
    pub fn next_theme(&self, user: &String, index: u64) -> (r: ThemeResponse)
        requires
            self.wf(),
            self.themes.len() <= i64::MAX,
            self.votes.len() <= i64::MAX,
            index_fits(unseen(self.themes@, seen_by(self.votes@, user@)), index),
        ensures
            r.total == self.themes.len(),
            r.seen == seen_by(self.votes@, user@).len(),
            r.theme == pick_from(unseen(self.themes@, seen_by(self.votes@, user@)), index),
            r.theme matches Some(t) ==> self.themes@.contains(t) && !seen_by(self.votes@, user@).contains(t.id),
            r.theme is None <==> forall|i: int|
                0 <= i < self.themes.len() ==> seen_by(self.votes@, user@).contains(#[trigger] self.themes@[i].id),
            r.seen == r.total ==> r.theme is None,
    {
        let seen = self.voted_theme_ids(user);
        proof {
            seen@.unique_seq_to_set();
        }
        let r = select_next(&self.themes, &seen, index);
        proof {
            let ids = seen_by(self.votes@, user@);
            assert forall|i: int| 0 <= i < self.themes.len() implies
                (#[trigger] seen@.contains(self.themes@[i].id)) == ids.contains(self.themes@[i].id) by {
                assert(seen@.to_set().contains(self.themes@[i].id) == seen@.contains(self.themes@[i].id));
            }
            if r.seen == r.total {
                lemma_seen_all(self, user@);
            }
        }
        r
    }

    /// Records the vote `vote_type` of `user_id` on `theme_id` at time `now`
    /// (Unix seconds). The kind must be `yes`, `no` or `skip`, else
    /// `InvalidType`; the theme must exist, else `UnknownTheme`; on either
    /// error nothing changes. Otherwise the pair's row is overwritten if it
    /// has one, or a row is added.
    pub fn record_vote(&mut self, user_id: &String, theme_id: i32, vote_type: &str, now: i64) -> (r: Result<(), VoteError>)
        requires
            old(self).wf(),
            old(self).votes.len() < i32::MAX,
        ensures
            final(self).wf(),
            vote_type_of(vote_type@) is None ==> r == Err::<(), VoteError>(VoteError::InvalidType),
            vote_type_of(vote_type@) is Some && !has_theme(old(self).themes@, theme_id) ==> r == Err::<(), VoteError>(VoteError::UnknownTheme),
            vote_type_of(vote_type@) is Some && has_theme(old(self).themes@, theme_id) ==> r is Ok,
            r is Err ==> *final(self) == *old(self),
            r is Ok ==> final(self).themes@ == old(self).themes@ && recorded(
                old(self).votes@,
                final(self).votes@,
                user_id@,
                theme_id,
                vote_type@,
                now,
            ),
    {
        let exists = self.theme_exists(theme_id);
        match check_vote(vote_type, exists) {
            Err(e) => {
                return Err(e);
            },
            Ok(_) => {},
        }
        let ghost before = self.votes@;
        let mut i: usize = 0;
        while i < self.votes.len()
            invariant
                self.wf(),
                self.votes@ == before,
                before == old(self).votes@,
                self.themes@ == old(self).themes@,
                vote_type_of(vote_type@) is Some,
                has_theme(self.themes@, theme_id),
                i <= self.votes.len(),
                forall|j: int| 0 <= j < i ==> !is_row(before, j, user_id@, theme_id),
            decreases self.votes.len() - i,
        {
            if self.votes[i].user_id == *user_id && self.votes[i].theme_id == theme_id {
                let row = Vote {
                    id: self.votes[i].id,
                    user_id: self.votes[i].user_id.clone(),
                    theme_id,
                    vote_type: vote_type.to_owned(),
                    created_at: now,
                };
                self.votes.set(i, row);
                proof {
                    assert(is_row(before, i as int, user_id@, theme_id));
                    let c = choose|c: int| is_row(before, c, user_id@, theme_id);
                    if c != i as int {
                        if c < i {
                            assert(!(before[c].user_id@ == before[i as int].user_id@ && before[c].theme_id == before[i as int].theme_id));
                        } else {
                            assert(!(before[i as int].user_id@ == before[c].user_id@ && before[i as int].theme_id == before[c].theme_id));
                        }
                    }
                    assert(self.votes@[i as int] == row);
                    assert forall|a: int, b: int|
                        0 <= a < b < self.votes.len() implies !(self.votes@[a].user_id@ == self.votes@[b].user_id@
                            && self.votes@[a].theme_id == self.votes@[b].theme_id) by {
                        assert(!(before[a].user_id@ == before[b].user_id@ && before[a].theme_id == before[b].theme_id));
                    }
                    assert forall|a: int| 0 <= a < self.votes.len() implies has_theme(self.themes@, #[trigger] self.votes@[a].theme_id)
                        && vote_type_of(self.votes@[a].vote_type@) is Some by {
                        if a != i as int {
                            assert(self.votes@[a] == before[a]);
                            assert(has_theme(self.themes@, before[a].theme_id));
                        } else {
                            assert(self.votes@[a].theme_id == theme_id);
                            assert(self.votes@[a].vote_type@ == vote_type@);
                        }
                    }
                }
                return Ok(());
            }
            i = i + 1;
        }
        let row = Vote {
            id: (self.votes.len() + 1) as i32,
            user_id: user_id.clone(),
            theme_id,
            vote_type: vote_type.to_owned(),
            created_at: now,
        };
        self.votes.push(row);
        proof {
            assert(self.votes@[before.len() as int] == row);
            assert forall|i: int, j: int|
                0 <= i < j < self.votes.len() implies !(self.votes@[i].user_id@ == self.votes@[j].user_id@
                    && self.votes@[i].theme_id == self.votes@[j].theme_id) by {
                assert(self.votes@[i] == before[i]);
                if j < before.len() {
                    assert(self.votes@[j] == before[j]);
                } else {
                    assert(!is_row(before, i, user_id@, theme_id));
                }
            }
            assert forall|i: int| 0 <= i < self.votes.len() implies has_theme(self.themes@, #[trigger] self.votes@[i].theme_id)
                && vote_type_of(self.votes@[i].vote_type@) is Some by {
                if i < before.len() {
                    assert(self.votes@[i] == before[i]);
                }
            }
        }
        Ok(())
    }
}

/// A user who has voted on as many themes as the catalog holds has voted on
/// every theme of it.
proof fn lemma_seen_all(store: &ThemeStore, user: Seq<char>)
    requires
        store.wf(),
        seen_by(store.votes@, user).finite(),
        seen_by(store.votes@, user).len() == store.themes.len(),
    ensures
        forall|i: int|
            0 <= i < store.themes.len() ==> seen_by(store.votes@, user).contains(#[trigger] store.themes@[i].id),
{
    let ids = store.themes@.map_values(|t: Theme| t.id);
    let seen = seen_by(store.votes@, user);
    assert(ids.no_duplicates()) by {
        assert forall|i: int, j: int| 0 <= i < ids.len() && 0 <= j < ids.len() && i != j implies ids[i] != ids[j] by {
            if i < j {
                assert(store.themes@[i].id != store.themes@[j].id);
            } else {
                assert(store.themes@[j].id != store.themes@[i].id);
            }
        }
    }
    ids.unique_seq_to_set();
    assert(seen.subset_of(ids.to_set())) by {
        assert forall|id: i32| seen.contains(id) implies ids.to_set().contains(id) by {
            let r = choose|r: int| is_row(store.votes@, r, user, id);
            assert(has_theme(store.themes@, store.votes@[r].theme_id));
            let j = choose|j: int| 0 <= j < store.themes.len() && #[trigger] store.themes@[j].id == id;
            assert(ids[j] == id);
        }
    }
    vstd::set_lib::lemma_subset_equality(seen, ids.to_set());
    assert forall|i: int| 0 <= i < store.themes.len() implies seen.contains(#[trigger] store.themes@[i].id) by {
        assert(ids[i] == store.themes@[i].id);
        assert(ids.to_set().contains(ids[i]));
    }
}

} // verus!

verus! {

/// Recording a vote of a user on a theme and then another vote of the same
/// user on the same theme leaves exactly one row for that pair, and it holds
/// the second vote.
pub proof fn lemma_revote_keeps_one_row(
    s0: ThemeStore,
    s1: ThemeStore,
    s2: ThemeStore,
    user: Seq<char>,
    theme: i32,
    first: Seq<char>,
    second: Seq<char>,
    t1: i64,
    t2: i64,
)
    requires
        s0.wf(),
        s1.wf(),
        s2.wf(),
        recorded(s0.votes@, s1.votes@, user, theme, first, t1),
        recorded(s1.votes@, s2.votes@, user, theme, second, t2),
    ensures
        exists|i: int| is_row(s2.votes@, i, user, theme) && s2.votes@[i].vote_type@ == second,
        forall|i: int, j: int|
            is_row(s2.votes@, i, user, theme) && is_row(s2.votes@, j, user, theme) ==> i == j,
{
    if exists|i: int| is_row(s1.votes@, i, user, theme) {
        let i = choose|i: int| is_row(s1.votes@, i, user, theme);
        assert(is_row(s2.votes@, i, user, theme));
    } else {
        assert(is_row(s2.votes@, s1.votes@.len() as int, user, theme));
    }
    assert forall|i: int, j: int|
        is_row(s2.votes@, i, user, theme) && is_row(s2.votes@, j, user, theme) implies i == j by {
        if i < j {
            assert(!(s2.votes@[i].user_id@ == s2.votes@[j].user_id@ && s2.votes@[i].theme_id == s2.votes@[j].theme_id));
        } else if j < i {
            assert(!(s2.votes@[j].user_id@ == s2.votes@[i].user_id@ && s2.votes@[j].theme_id == s2.votes@[i].theme_id));
        }
    }
}

/// Recording a vote of `user` on `theme` adds `theme` to the themes that
/// `user` has seen and changes nothing for any other user.
pub proof fn lemma_vote_marks_seen(
    s0: ThemeStore,
    s1: ThemeStore,
    user: Seq<char>,
    theme: i32,
    word: Seq<char>,
    now: i64,
    other: Seq<char>,
)
    requires
        recorded(s0.votes@, s1.votes@, user, theme, word, now),
    ensures
        seen_by(s1.votes@, user) == seen_by(s0.votes@, user).insert(theme),
        other != user ==> seen_by(s1.votes@, other) == seen_by(s0.votes@, other),
{
    let v0 = s0.votes@;
    let v1 = s1.votes@;
    assert forall|u: Seq<char>, id: i32|
        #[trigger] seen_by(v1, u).contains(id) <==> seen_by(v0, u).contains(id) || (u == user
            && id == theme) by {
        if exists|i: int| is_row(v0, i, user, theme) {
            let i = choose|i: int| is_row(v0, i, user, theme);
            if exists|j: int| is_row(v1, j, u, id) {
                let j = choose|j: int| is_row(v1, j, u, id);
                if j != i {
                    assert(is_row(v0, j, u, id));
                }
            }
            if exists|j: int| is_row(v0, j, u, id) {
                let j = choose|j: int| is_row(v0, j, u, id);
                if j != i {
                    assert(is_row(v1, j, u, id));
                } else {
                    assert(is_row(v1, i, u, id));
                }
            }
            if u == user && id == theme {
                assert(is_row(v1, i, u, id));
            }
        } else {
            if exists|j: int| is_row(v1, j, u, id) {
                let j = choose|j: int| is_row(v1, j, u, id);
                if j < v0.len() {
                    assert(is_row(v0, j, u, id));
                }
            }
            if exists|j: int| is_row(v0, j, u, id) {
                let j = choose|j: int| is_row(v0, j, u, id);
                assert(is_row(v1, j, u, id));
            }
            if u == user && id == theme {
                assert(is_row(v1, v0.len() as int, u, id));
            }
        }
    }
    assert(seen_by(v1, user) =~= seen_by(v0, user).insert(theme));
    if other != user {
        assert(seen_by(v1, other) =~= seen_by(v0, other));
    }
}

/// After a user votes on a theme, the themes still offered to that user are
/// ones the user had not seen before, and never the theme just voted on.
pub proof fn lemma_voted_theme_not_offered(
    s0: ThemeStore,
    s1: ThemeStore,
    user: Seq<char>,
    theme: i32,
    word: Seq<char>,
    now: i64,
)
    requires
        s1.themes@ == s0.themes@,
        recorded(s0.votes@, s1.votes@, user, theme, word, now),
    ensures
        forall|t: Theme|
            #[trigger] unseen(s1.themes@, seen_by(s1.votes@, user)).contains(t) ==> t.id != theme
                && !seen_by(s0.votes@, user).contains(t.id),
{
    lemma_vote_marks_seen(s0, s1, user, theme, word, now, user);
    lemma_unseen_facts(s1.themes@, seen_by(s1.votes@, user));
}

/// Whether `stores` is a run of rounds for `user`: in round `i` the theme
/// `offered[i]` was among those offered to the user by `stores[i]`, and
/// `stores[i + 1]` is `stores[i]` after the user's vote on it.
pub open spec fn offered_rounds(
    stores: Seq<ThemeStore>,
    offered: Seq<Theme>,
    user: Seq<char>,
    words: Seq<Seq<char>>,
    times: Seq<i64>,
) -> bool {
    &&& stores.len() == offered.len() + 1
    &&& words.len() == offered.len()
    &&& times.len() == offered.len()
    &&& forall|i: int|
        #![trigger offered[i]]
        0 <= i < offered.len() ==> {
            &&& stores[i + 1].themes@ == stores[i].themes@
            &&& unseen(stores[i].themes@, seen_by(stores[i].votes@, user)).contains(offered[i])
            &&& recorded(stores[i].votes@, stores[i + 1].votes@, user, offered[i].id, words[i], times[i])
        }
}

/// Over any number of rounds in which a user is offered a theme and votes on
/// it, the themes offered are pairwise distinct and none of them is one the
/// user had voted on before the first round.
pub proof fn lemma_rounds_offer_distinct_unseen(
    stores: Seq<ThemeStore>,
    offered: Seq<Theme>,
    user: Seq<char>,
    words: Seq<Seq<char>>,
    times: Seq<i64>,
)
    requires
        offered_rounds(stores, offered, user, words, times),
    ensures
        forall|i: int| 0 <= i < offered.len() ==> !seen_by(stores[0].votes@, user).contains(#[trigger] offered[i].id),
        forall|i: int, j: int| 0 <= i < j < offered.len() ==> offered[i].id != offered[j].id,
{
    lemma_rounds_grow_seen(stores, offered, user, words, times, offered.len() as int);
    assert forall|j: int| 0 <= j < offered.len() implies !seen_by(stores[j].votes@, user).contains(
        #[trigger] offered[j].id) by {
        lemma_unseen_facts(stores[j].themes@, seen_by(stores[j].votes@, user));
        assert(unseen(stores[j].themes@, seen_by(stores[j].votes@, user)).contains(offered[j]));
        lemma_rounds_grow_seen(stores, offered, user, words, times, j);
    }
    assert forall|i: int| 0 <= i < offered.len() implies !seen_by(stores[0].votes@, user).contains(#[trigger] offered[i].id) by {
        lemma_rounds_grow_seen(stores, offered, user, words, times, i);
    }
    assert forall|i: int, j: int| 0 <= i < j < offered.len() implies offered[i].id != offered[j].id by {
        lemma_rounds_grow_seen(stores, offered, user, words, times, j);
        assert(!seen_by(stores[j].votes@, user).contains(offered[j].id));
    }
}

/// After `k` rounds the user has seen what was seen before the first round
/// and every theme offered in those rounds.
proof fn lemma_rounds_grow_seen(
    stores: Seq<ThemeStore>,
    offered: Seq<Theme>,
    user: Seq<char>,
    words: Seq<Seq<char>>,
    times: Seq<i64>,
    k: int,
)
    requires
        offered_rounds(stores, offered, user, words, times),
        0 <= k <= offered.len(),
    ensures
        seen_by(stores[0].votes@, user).subset_of(seen_by(stores[k].votes@, user)),
        forall|i: int| 0 <= i < k ==> seen_by(stores[k].votes@, user).contains(#[trigger] offered[i].id),
    decreases k,
{
    if k > 0 {
        lemma_rounds_grow_seen(stores, offered, user, words, times, k - 1);
        let p = k - 1;
        assert(recorded(stores[p].votes@, stores[p + 1].votes@, user, offered[p].id, words[p], times[p]));
        lemma_vote_marks_seen(stores[p], stores[p + 1], user, offered[p].id, words[p], times[p], user);
    }
}

} // verus!
