use vstd::prelude::*;

use crate::account::{
    byte_len, Identity, Review, MAX_DESCRIPTION_LENGTH, MAX_RATING, MAX_TITLE_LENGTH, MIN_RATING,
};
use crate::error::MovieReviewError;
use crate::table::{
    after_create, after_delete, after_update, consistent, found, key_of, reserved, ReviewKey,
    ReviewTable,
};

verus! {

/// A review within the limits, created under a key that holds none, is found under its
/// title and author with exactly the fields it was created with.
pub proof fn law_created_review_is_found(
    table: ReviewTable,
    reviewer: Identity,
    title: Seq<char>,
    description: Seq<char>,
    rating: u8,
)
    requires
        byte_len(title) <= MAX_TITLE_LENGTH,
        byte_len(description) <= MAX_DESCRIPTION_LENGTH,
        MIN_RATING <= rating <= MAX_RATING,
        !table.contains_key(key_of(reviewer, title)),
    ensures
        after_create(table, reviewer, title, description, rating) matches Ok(next) && found(
            next,
            reviewer,
            title,
        ) == Ok::<Review, MovieReviewError>(Review { reviewer, rating, title, description }),
{
}

/// Removing a review that was just created gives back the table as it was before.
pub proof fn law_create_then_delete_restores(
    table: ReviewTable,
    reviewer: Identity,
    title: Seq<char>,
    description: Seq<char>,
    rating: u8,
)
    ensures
        after_create(table, reviewer, title, description, rating) matches Ok(next) ==> after_delete(
            next,
            reviewer,
            title,
        ) == Ok::<ReviewTable, MovieReviewError>(table),
{
    if after_create(table, reviewer, title, description, rating) is Ok {
        let k = key_of(reviewer, title);
        let next = after_create(table, reviewer, title, description, rating)->Ok_0;
        assert(next.remove(k) =~= table);
    }
}

/// Creating under a key that holds a review is refused as `AlreadyExists`, whatever the
/// rating and the texts are. (A refusal leaves the table as it was: there is no table
/// after it.)
pub proof fn law_create_refuses_occupied_key(
    table: ReviewTable,
    reviewer: Identity,
    title: Seq<char>,
    description: Seq<char>,
    rating: u8,
)
    requires
        table.contains_key(key_of(reviewer, title)),
    ensures
        after_create(table, reviewer, title, description, rating) == Err::<
            ReviewTable,
            MovieReviewError,
        >(MovieReviewError::AlreadyExists),
{
}

/// Under a key that holds no review, a creation succeeds exactly if the rating is from 1
/// to 5, the title has at most 20 bytes and the description at most 50. Otherwise the
/// first of these that fails, in this order, names the refusal.
pub proof fn law_create_checks_in_order(
    table: ReviewTable,
    reviewer: Identity,
    title: Seq<char>,
    description: Seq<char>,
    rating: u8,
)
    requires
        !table.contains_key(key_of(reviewer, title)),
    ensures
        ({
            let outcome = after_create(table, reviewer, title, description, rating);
            let rating_fits = MIN_RATING <= rating <= MAX_RATING;
            let title_fits = byte_len(title) <= MAX_TITLE_LENGTH;
            let description_fits = byte_len(description) <= MAX_DESCRIPTION_LENGTH;
            &&& outcome is Ok <==> rating_fits && title_fits && description_fits
            &&& !rating_fits ==> outcome == Err::<ReviewTable, MovieReviewError>(
                MovieReviewError::InvalidRating,
            )
            &&& rating_fits && !title_fits ==> outcome == Err::<ReviewTable, MovieReviewError>(
                MovieReviewError::TitleTooLong,
            )
            &&& rating_fits && title_fits && !description_fits ==> outcome == Err::<
                ReviewTable,
                MovieReviewError,
            >(MovieReviewError::DescriptionTooLong)
        }),
{
}

/// A creation that succeeds changes the table under its own key only.
pub proof fn law_create_touches_one_key(
    table: ReviewTable,
    reviewer: Identity,
    title: Seq<char>,
    description: Seq<char>,
    rating: u8,
    other: ReviewKey,
)
    requires
        other != key_of(reviewer, title),
    ensures
        after_create(table, reviewer, title, description, rating) matches Ok(next) ==> {
            &&& next.contains_key(other) == table.contains_key(other)
            &&& next[other] == table[other]
        },
{
}

/// Updating under a key that holds no review is refused as `NotFound`. (A refusal leaves
/// the table as it was, so nothing is created.)
pub proof fn law_update_needs_review(
    table: ReviewTable,
    reviewer: Identity,
    title: Seq<char>,
    description: Seq<char>,
    rating: u8,
)
    requires
        !table.contains_key(key_of(reviewer, title)),
    ensures
        after_update(table, reviewer, title, description, rating) == Err::<
            ReviewTable,
            MovieReviewError,
        >(MovieReviewError::NotFound),
{
}

/// Updating a stored review succeeds whatever the new rating and description are. It
/// changes the rating and the description and leaves the title and the author alone,
/// and the review that is then found holds the new values.
pub proof fn law_update_writes_rating_and_description(
    table: ReviewTable,
    reviewer: Identity,
    title: Seq<char>,
    description: Seq<char>,
    rating: u8,
)
    requires
        table.contains_key(key_of(reviewer, title)),
    ensures
        after_update(table, reviewer, title, description, rating) matches Ok(next) && {
            let before = table[key_of(reviewer, title)].review;
            &&& found(next, reviewer, title) matches Ok(after)
            &&& after.rating == rating
            &&& after.description == description
            &&& after.title == before.title
            &&& after.reviewer == before.reviewer
        },
{
}

/// An update that succeeds changes the table under its own key only.
pub proof fn law_update_touches_one_key(
    table: ReviewTable,
    reviewer: Identity,
    title: Seq<char>,
    description: Seq<char>,
    rating: u8,
    other: ReviewKey,
)
    requires
        other != key_of(reviewer, title),
    ensures
        after_update(table, reviewer, title, description, rating) matches Ok(next) ==> {
            &&& next.contains_key(other) == table.contains_key(other)
            &&& next[other] == table[other]
        },
{
}

/// Removing under a key that holds no review is refused as `NotFound`.
pub proof fn law_delete_needs_review(table: ReviewTable, reviewer: Identity, title: Seq<char>)
    requires
        !table.contains_key(key_of(reviewer, title)),
    ensures
        after_delete(table, reviewer, title) == Err::<ReviewTable, MovieReviewError>(
            MovieReviewError::NotFound,
        ),
{
}

/// Removing a stored review succeeds. The review is then no longer found, no bytes are
/// reserved under its key any more, and an update or a second removal is refused as
/// `NotFound`.
pub proof fn law_deleted_review_is_gone(
    table: ReviewTable,
    reviewer: Identity,
    title: Seq<char>,
    description: Seq<char>,
    rating: u8,
)
    requires
        table.contains_key(key_of(reviewer, title)),
    ensures
        after_delete(table, reviewer, title) matches Ok(next) && {
            &&& found(next, reviewer, title) == Err::<Review, MovieReviewError>(
                MovieReviewError::NotFound,
            )
            &&& reserved(next, reviewer, title) == 0
            &&& after_update(next, reviewer, title, description, rating) == Err::<
                ReviewTable,
                MovieReviewError,
            >(MovieReviewError::NotFound)
            &&& after_delete(next, reviewer, title) == Err::<ReviewTable, MovieReviewError>(
                MovieReviewError::NotFound,
            )
        },
{
}

/// A removal that succeeds changes the table under its own key only.
pub proof fn law_delete_touches_one_key(
    table: ReviewTable,
    reviewer: Identity,
    title: Seq<char>,
    other: ReviewKey,
)
    requires
        other != key_of(reviewer, title),
    ensures
        after_delete(table, reviewer, title) matches Ok(next) ==> {
            &&& next.contains_key(other) == table.contains_key(other)
            &&& next[other] == table[other]
        },
{
}

/// Whatever succeeds keeps the table consistent: every review stays under its own
/// author and title, every title within its limit, and every review within the bytes
/// reserved for it.
pub proof fn law_table_stays_consistent(
    table: ReviewTable,
    reviewer: Identity,
    title: Seq<char>,
    description: Seq<char>,
    rating: u8,
)
    requires
        consistent(table),
    ensures
        after_create(table, reviewer, title, description, rating) matches Ok(next) ==> consistent(
            next,
        ),
        after_update(table, reviewer, title, description, rating) matches Ok(next) ==> consistent(
            next,
        ),
        after_delete(table, reviewer, title) matches Ok(next) ==> consistent(next),
{
}

} // verus!
