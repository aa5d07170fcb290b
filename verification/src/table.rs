use vstd::prelude::*;

use crate::account::{byte_len, fitted_space, initial_space, Identity, Review, MAX_TITLE_LENGTH};
use crate::error::MovieReviewError;
use crate::instructions::admission;

verus! {

/// What tells one review from another: who wrote it, and the title.
pub struct ReviewKey {
    pub reviewer: Identity,
    pub title: Seq<char>,
}

/// What the table holds under a key: the review, and the bytes reserved for it.
pub struct StoredReview {
    pub review: Review,
    pub space: nat,
}

/// The table as the contracts see it: at most one review under each key.
pub type ReviewTable = Map<ReviewKey, StoredReview>;

/// The key of the review with this title by this author.
pub open spec fn key_of(reviewer: Identity, title: Seq<char>) -> ReviewKey {
    ReviewKey { reviewer, title }
}

/// Every review stands under its own author and title, every title is within its limit,
/// and every review fits into the bytes reserved for it.
pub open spec fn consistent(table: ReviewTable) -> bool {
    forall|k: ReviewKey| #[trigger]
        table.contains_key(k) ==> {
            &&& table[k].review.reviewer == k.reviewer
            &&& table[k].review.title == k.title
            &&& byte_len(k.title) <= MAX_TITLE_LENGTH
            &&& table[k].review.packed_len() <= table[k].space
        }
}

/// What looking up a review answers.
pub open spec fn found(table: ReviewTable, reviewer: Identity, title: Seq<char>) -> Result<
    Review,
    MovieReviewError,
> {
    let k = key_of(reviewer, title);
    if table.contains_key(k) {
        Ok(table[k].review)
    } else {
        Err(MovieReviewError::NotFound)
    }
}

/// Bytes reserved under a key; none where the table holds no review there.
pub open spec fn reserved(table: ReviewTable, reviewer: Identity, title: Seq<char>) -> nat {
    let k = key_of(reviewer, title);
    if table.contains_key(k) {
        table[k].space
    } else {
        0
    }
}

/// The review that a creation stores, with the bytes reserved for it.
pub open spec fn created(
    reviewer: Identity,
    title: Seq<char>,
    description: Seq<char>,
    rating: u8,
) -> StoredReview {
    StoredReview {
        review: Review { reviewer, rating, title, description },
        space: initial_space(),
    }
}

/// What a stored review becomes by an update: a new rating and description, and as many
/// bytes as the new description needs.
pub open spec fn updated(stored: StoredReview, description: Seq<char>, rating: u8) -> StoredReview {
    StoredReview {
        review: Review { rating, description, ..stored.review },
        space: fitted_space(description),
    }
}

/// The table after a creation, or why it is refused. An occupied key is refused first,
/// then whatever `admission` refuses.
pub open spec fn after_create(
    table: ReviewTable,
    reviewer: Identity,
    title: Seq<char>,
    description: Seq<char>,
    rating: u8,
) -> Result<ReviewTable, MovieReviewError> {
    let k = key_of(reviewer, title);
    if table.contains_key(k) {
        Err(MovieReviewError::AlreadyExists)
    } else {
        match admission(title, description, rating) {
            Err(e) => Err(e),
            Ok(_) => Ok(table.insert(k, created(reviewer, title, description, rating))),
        }
    }
}

/// The table after an update, or why it is refused. Nothing but a missing review refuses
/// it: the new rating and description are taken as they come.
pub open spec fn after_update(
    table: ReviewTable,
    reviewer: Identity,
    title: Seq<char>,
    description: Seq<char>,
    rating: u8,
) -> Result<ReviewTable, MovieReviewError> {
    let k = key_of(reviewer, title);
    if table.contains_key(k) {
        Ok(table.insert(k, updated(table[k], description, rating)))
    } else {
        Err(MovieReviewError::NotFound)
    }
}

/// The table after a removal, or why it is refused.
pub open spec fn after_delete(table: ReviewTable, reviewer: Identity, title: Seq<char>) -> Result<
    ReviewTable,
    MovieReviewError,
> {
    let k = key_of(reviewer, title);
    if table.contains_key(k) {
        Ok(table.remove(k))
    } else {
        Err(MovieReviewError::NotFound)
    }
}

} // verus!
