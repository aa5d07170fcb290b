use vstd::prelude::*;

use crate::account::{
    byte_len, same_text, Identity, MovieAccountState, Review, MAX_TITLE_LENGTH,
};
use crate::error::MovieReviewError;
use crate::instructions::{
    add_movie_review, delete_movie_review, update_movie_review, AddMovieReview,
    DeleteMovieReview, UpdateMovieReview,
};
use crate::table::{
    after_create, after_delete, after_update, consistent, created, found, key_of, reserved,
    ReviewKey, ReviewTable, StoredReview,
};

verus! {

/// A record in the table, with the bytes reserved for it.
struct Entry {
    account: MovieAccountState,
    space: u128,
}

/// The reviews of all authors, at most one for each title and author.
///
/// A review is found by its title and its author alone. Whoever presents both may rewrite
/// or remove it: the table takes the identity it is given as the author's and asks for no
/// further proof of it.
pub struct ReviewStore {
    entries: Vec<Entry>,
}

spec fn entry_key(e: Entry) -> ReviewKey {
    key_of(e.account.reviewer, e.account.title@)
}

spec fn entry_stored(e: Entry) -> StoredReview {
    StoredReview { review: e.account@, space: e.space as nat }
}

spec fn holds(s: Seq<Entry>, k: ReviewKey) -> bool {
    exists|i: int| 0 <= i < s.len() && #[trigger] entry_key(s[i]) == k
}

spec fn index_of(s: Seq<Entry>, k: ReviewKey) -> int {
    choose|i: int| 0 <= i < s.len() && #[trigger] entry_key(s[i]) == k
}

spec fn distinct(s: Seq<Entry>) -> bool {
    forall|i: int, j: int|
        0 <= i < j < s.len() ==> #[trigger] entry_key(s[i]) != #[trigger] entry_key(s[j])
}

spec fn entries_fit(s: Seq<Entry>) -> bool {
    forall|i: int|
        0 <= i < s.len() ==> {
            &&& byte_len((#[trigger] s[i]).account.title@) <= MAX_TITLE_LENGTH
            &&& s[i].account@.packed_len() <= s[i].space
        }
}

spec fn table_of(s: Seq<Entry>) -> ReviewTable {
    Map::new(|k: ReviewKey| holds(s, k), |k: ReviewKey| entry_stored(s[index_of(s, k)]))
}

/// With distinct keys, the table holds each entry under its key and nothing else.
proof fn lemma_table_of(s: Seq<Entry>)
    requires
        distinct(s),
    ensures
        forall|i: int|
            0 <= i < s.len() ==> {
                &&& table_of(s).contains_key(#[trigger] entry_key(s[i]))
                &&& table_of(s)[entry_key(s[i])] == entry_stored(s[i])
            },
        forall|k: ReviewKey| #[trigger]
            table_of(s).contains_key(k) ==> {
                &&& 0 <= index_of(s, k) < s.len()
                &&& entry_key(s[index_of(s, k)]) == k
            },
{
    assert forall|i: int| 0 <= i < s.len() implies {
        &&& table_of(s).contains_key(#[trigger] entry_key(s[i]))
        &&& table_of(s)[entry_key(s[i])] == entry_stored(s[i])
    } by {
        let k = entry_key(s[i]);
        assert(holds(s, k));
        let j = index_of(s, k);
        assert(0 <= j < s.len() && entry_key(s[j]) == k);
        assert(j == i);
    }
}

/// With distinct keys and fitting entries, the table is consistent.
proof fn lemma_consistent(s: Seq<Entry>)
    requires
        distinct(s),
        entries_fit(s),
    ensures
        consistent(table_of(s)),
{
    lemma_table_of(s);
    assert forall|k: ReviewKey| #[trigger] table_of(s).contains_key(k) implies {
        &&& table_of(s)[k].review.reviewer == k.reviewer
        &&& table_of(s)[k].review.title == k.title
        &&& byte_len(k.title) <= MAX_TITLE_LENGTH
        &&& table_of(s)[k].review.packed_len() <= table_of(s)[k].space
    } by {
        let i = index_of(s, k);
        assert(entry_key(s[i]) == k);
        assert(table_of(s)[entry_key(s[i])] == entry_stored(s[i]));
    }
}

/// Putting in an entry whose key is new puts it into the table under that key.
proof fn lemma_insert(s: Seq<Entry>, at: int, e: Entry)
    requires
        distinct(s),
        !holds(s, entry_key(e)),
        0 <= at <= s.len(),
    ensures
        distinct(s.insert(at, e)),
        table_of(s.insert(at, e)) == table_of(s).insert(entry_key(e), entry_stored(e)),
{
    let t = s.insert(at, e);
    assert forall|i: int| 0 <= i < s.len() implies #[trigger] entry_key(s[i]) != entry_key(e) by {
        if entry_key(s[i]) == entry_key(e) {
            assert(holds(s, entry_key(e)));
        }
    }
    assert forall|i: int, j: int| 0 <= i < j < t.len() implies #[trigger] entry_key(t[i])
        != #[trigger] entry_key(t[j]) by {
        let a = if i < at { i } else { i - 1 };
        let b = if j < at { j } else { j - 1 };
        if i != at && j != at {
            assert(t[i] == s[a] && t[j] == s[b]);
            assert(entry_key(s[a]) != entry_key(s[b]));
        } else if i == at {
            assert(t[j] == s[b]);
        } else {
            assert(t[i] == s[a]);
        }
    }
    lemma_table_of(s);
    lemma_table_of(t);
    let want = table_of(s).insert(entry_key(e), entry_stored(e));
    assert forall|k: ReviewKey| table_of(t).contains_key(k) implies want.contains_key(k)
        && table_of(t)[k] == want[k] by {
        let i = index_of(t, k);
        if i == at {
        } else {
            let a = if i < at { i } else { i - 1 };
            assert(t[i] == s[a]);
            assert(table_of(s).contains_key(entry_key(s[a])));
        }
    }
    assert forall|k: ReviewKey| want.contains_key(k) implies table_of(t).contains_key(k) by {
        if k == entry_key(e) {
            assert(t[at] == e);
            assert(table_of(t).contains_key(entry_key(t[at])));
        } else {
            let a = index_of(s, k);
            let i = if a < at { a } else { a + 1 };
            assert(t[i] == s[a]);
            assert(table_of(t).contains_key(entry_key(t[i])));
        }
    }
    assert(table_of(t) =~= want);
}

/// Taking out an entry takes its key out of the table.
proof fn lemma_remove(s: Seq<Entry>, at: int)
    requires
        distinct(s),
        0 <= at < s.len(),
    ensures
        distinct(s.remove(at)),
        !holds(s.remove(at), entry_key(s[at])),
        table_of(s.remove(at)) == table_of(s).remove(entry_key(s[at])),
{
    let t = s.remove(at);
    assert forall|i: int, j: int| 0 <= i < j < t.len() implies #[trigger] entry_key(t[i])
        != #[trigger] entry_key(t[j]) by {
        let a = if i < at { i } else { i + 1 };
        let b = if j < at { j } else { j + 1 };
        assert(t[i] == s[a] && t[j] == s[b]);
        assert(entry_key(s[a]) != entry_key(s[b]));
    }
    assert forall|i: int| 0 <= i < t.len() implies #[trigger] entry_key(t[i]) != entry_key(
        s[at],
    ) by {
        let a = if i < at { i } else { i + 1 };
        assert(t[i] == s[a]);
        if a < at {
            assert(entry_key(s[a]) != entry_key(s[at]));
        } else {
            assert(entry_key(s[at]) != entry_key(s[a]));
        }
    }
    lemma_table_of(s);
    lemma_table_of(t);
    let want = table_of(s).remove(entry_key(s[at]));
    assert forall|k: ReviewKey| table_of(t).contains_key(k) implies want.contains_key(k)
        && table_of(t)[k] == want[k] by {
        let i = index_of(t, k);
        let a = if i < at { i } else { i + 1 };
        assert(t[i] == s[a]);
        assert(table_of(s).contains_key(entry_key(s[a])));
    }
    assert forall|k: ReviewKey| want.contains_key(k) implies table_of(t).contains_key(k) by {
        let a = index_of(s, k);
        let i = if a < at { a } else { a - 1 };
        assert(t[i] == s[a]);
        assert(table_of(t).contains_key(entry_key(t[i])));
    }
    assert(table_of(t) =~= want);
}

impl View for ReviewStore {
    type V = ReviewTable;

    closed spec fn view(&self) -> ReviewTable {
        table_of(self.entries@)
    }
}

impl ReviewStore {
    #[verifier::type_invariant]
    spec fn well_formed(self) -> bool {
        &&& distinct(self.entries@)
        &&& entries_fit(self.entries@)
    }

    /// A table without reviews.
    pub fn new() -> (store: Self)
        ensures
            store@ == Map::<ReviewKey, StoredReview>::empty(),
            consistent(store@),
    {
        let store = ReviewStore { entries: Vec::new() };
        assert(store@ =~= Map::<ReviewKey, StoredReview>::empty());
        store
    }

    /// Where the review with this title by this author stands, if it is stored.
    fn position(&self, reviewer: &Identity, title: &str) -> (at: Option<usize>)
        ensures
            match at {
                Some(i) => i < self.entries@.len() && entry_key(self.entries@[i as int]) == key_of(
                    *reviewer,
                    title@,
                ),
                None => !holds(self.entries@, key_of(*reviewer, title@)),
            },
    {
        let mut i: usize = 0;
        while i < self.entries.len()
            invariant
                i <= self.entries@.len(),
                forall|j: int|
                    0 <= j < i ==> #[trigger] entry_key(self.entries@[j]) != key_of(
                        *reviewer,
                        title@,
                    ),
            decreases self.entries@.len() - i,
        {
            let entry = &self.entries[i];
            if entry.account.reviewer == *reviewer && same_text(entry.account.title.as_str(), title) {
                return Some(i);
            }
            i += 1;
        }
        None
    }

    /// Stores a new review and reserves the bytes for it; gives back the review as stored.
    ///
    /// Refused, with the table left as it was, if a review with this title by this
    /// author is stored already, or else if the rating, the title or the description is
    /// out of its limit.
    pub fn create(
        &mut self,
        reviewer: Identity,
        title: String,
        description: String,
        rating: u8,
    ) -> (result: Result<MovieAccountState, MovieReviewError>)
        ensures
            consistent(final(self)@),
            match result {
                Ok(review) => {
                    &&& after_create(old(self)@, reviewer, title@, description@, rating) matches Ok(
                        table,
                    )
                    &&& final(self)@ == table
                    &&& review@ == created(reviewer, title@, description@, rating).review
                },
                Err(e) => {
                    &&& after_create(old(self)@, reviewer, title@, description@, rating) matches Err(
                        why,
                    )
                    &&& e == why
                    &&& final(self)@ == old(self)@
                },
            },
    {
        proof {
            use_type_invariant(&*self);
            lemma_table_of(self.entries@);
            lemma_consistent(self.entries@);
        }
        if self.position(&reviewer, title.as_str()).is_some() {
            return Err(MovieReviewError::AlreadyExists);
        }
        let mut ctx = AddMovieReview {
            movie_review: MovieAccountState::default(),
            initializer: reviewer,
        };
        match add_movie_review(&mut ctx, title, description, rating) {
            Err(e) => Err(e),
            Ok(()) => {
                let review = ctx.movie_review.clone();
                let entry = Entry { account: ctx.movie_review, space: AddMovieReview::space() };
                proof {
                    lemma_insert(self.entries@, self.entries@.len() as int, entry);
                    assert(self.entries@.push(entry) =~= self.entries@.insert(
                        self.entries@.len() as int,
                        entry,
                    ));
                }
                let mut entries: Vec<Entry> = Vec::new();
                std::mem::swap(&mut entries, &mut self.entries);
                entries.push(entry);
                self.entries = entries;
                proof {
                    lemma_consistent(self.entries@);
                }
                Ok(review)
            },
        }
    }

    /// Writes a new rating and a new description to a stored review and resizes what is
    /// reserved for it to the new description; gives back the review as it now stands.
    ///
    /// Refused, with the table left as it was, if no review with this title by this
    /// author is stored. The new rating and description are not held to the limits of a
    /// new review.
    pub fn update(
        &mut self,
        reviewer: Identity,
        title: String,
        description: String,
        rating: u8,
    ) -> (result: Result<MovieAccountState, MovieReviewError>)
        ensures
            consistent(final(self)@),
            match result {
                Ok(review) => {
                    &&& after_update(old(self)@, reviewer, title@, description@, rating) matches Ok(
                        table,
                    )
                    &&& final(self)@ == table
                    &&& review@ == table[key_of(reviewer, title@)].review
                },
                Err(e) => {
                    &&& after_update(old(self)@, reviewer, title@, description@, rating) matches Err(
                        why,
                    )
                    &&& e == why
                    &&& final(self)@ == old(self)@
                },
            },
    {
        proof {
            use_type_invariant(&*self);
            lemma_table_of(self.entries@);
            lemma_consistent(self.entries@);
        }
        let at = match self.position(&reviewer, title.as_str()) {
            Some(i) => i,
            None => {
                return Err(MovieReviewError::NotFound);
            },
        };
        let space = UpdateMovieReview::space(description.as_str());
        let ghost before = self.entries@;
        let mut entries: Vec<Entry> = Vec::new();
        std::mem::swap(&mut entries, &mut self.entries);
        let entry = entries.remove(at);
        let mut ctx = UpdateMovieReview { movie_review: entry.account, initializer: reviewer };
        let outcome = update_movie_review(&mut ctx, title, description, rating);
        let review = ctx.movie_review.clone();
        let entry = Entry { account: ctx.movie_review, space };
        proof {
            lemma_remove(before, at as int);
            lemma_insert(before.remove(at as int), at as int, entry);
            let after = before.remove(at as int).insert(at as int, entry);
            assert(after =~= before.update(at as int, entry));
            assert(table_of(after) =~= table_of(before).insert(
                entry_key(entry),
                entry_stored(entry),
            ));
        }
        entries.insert(at, entry);
        self.entries = entries;
        proof {
            lemma_consistent(self.entries@);
        }
        match outcome {
            Ok(()) => Ok(review),
            Err(e) => Err(e),
        }
    }

    /// Removes a stored review and releases the bytes reserved for it.
    ///
    /// Refused, with the table left as it was, if no review with this title by this
    /// author is stored.
    pub fn delete(&mut self, reviewer: Identity, title: String) -> (result: Result<
        (),
        MovieReviewError,
    >)
        ensures
            consistent(final(self)@),
            match result {
                Ok(()) => {
                    &&& after_delete(old(self)@, reviewer, title@) matches Ok(table)
                    &&& final(self)@ == table
                },
                Err(e) => {
                    &&& after_delete(old(self)@, reviewer, title@) matches Err(why)
                    &&& e == why
                    &&& final(self)@ == old(self)@
                },
            },
    {
        proof {
            use_type_invariant(&*self);
            lemma_table_of(self.entries@);
            lemma_consistent(self.entries@);
        }
        let at = match self.position(&reviewer, title.as_str()) {
            Some(i) => i,
            None => {
                return Err(MovieReviewError::NotFound);
            },
        };
        let ghost before = self.entries@;
        let mut entries: Vec<Entry> = Vec::new();
        std::mem::swap(&mut entries, &mut self.entries);
        let entry = entries.remove(at);
        let ctx = DeleteMovieReview { movie_review: entry.account, initializer: reviewer };
        let outcome = delete_movie_review(&ctx, title);
        proof {
            lemma_remove(before, at as int);
        }
        if outcome.is_err() {
            entries.insert(at, Entry { account: ctx.movie_review, space: entry.space });
        }
        self.entries = entries;
        proof {
            lemma_consistent(self.entries@);
        }
        outcome
    }

    /// The review with this title by this author.
    pub fn lookup(&self, reviewer: &Identity, title: &str) -> (result: Result<
        &MovieAccountState,
        MovieReviewError,
    >)
        ensures
            match result {
                Ok(review) => found(self@, *reviewer, title@) == Ok::<_, MovieReviewError>(review@),
                Err(e) => found(self@, *reviewer, title@) == Err::<Review, _>(e),
            },
            consistent(self@),
    {
        proof {
            use_type_invariant(self);
            lemma_table_of(self.entries@);
            lemma_consistent(self.entries@);
        }
        match self.position(reviewer, title) {
            Some(i) => Ok(&self.entries[i].account),
            None => Err(MovieReviewError::NotFound),
        }
    }

    /// Bytes reserved for the review with this title by this author; none if it is not
    /// stored.
    pub fn reserved_space(&self, reviewer: &Identity, title: &str) -> (bytes: u128)
        ensures
            bytes == reserved(self@, *reviewer, title@),
    {
        proof {
            use_type_invariant(self);
            lemma_table_of(self.entries@);
        }
        match self.position(reviewer, title) {
            Some(i) => self.entries[i].space,
            None => 0,
        }
    }
}

} // verus!
