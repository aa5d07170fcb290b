use vstd::prelude::*;

use crate::account::{
    byte_len, fitted_space, initial_space, text_len, Identity, MovieAccountState, Review,
    DISCRIMINATOR, IDENTITY_LENGTH, LENGTH_PREFIX, MAX_DESCRIPTION_LENGTH, MAX_RATING,
    MAX_TITLE_LENGTH, MIN_RATING,
};
use crate::error::MovieReviewError;

verus! {

/// What the checks on a new review answer. They are made in this order: the rating, the
/// title's length, the description's length; the first one that fails decides.
pub open spec fn admission(title: Seq<char>, description: Seq<char>, rating: u8) -> Result<
    (),
    MovieReviewError,
> {
    if !(MIN_RATING <= rating <= MAX_RATING) {
        Err(MovieReviewError::InvalidRating)
    } else if byte_len(title) > MAX_TITLE_LENGTH {
        Err(MovieReviewError::TitleTooLong)
    } else if byte_len(description) > MAX_DESCRIPTION_LENGTH {
        Err(MovieReviewError::DescriptionTooLong)
    } else {
        Ok(())
    }
}

/// What `add_movie_review` works on: the record to fill, which nothing was written to yet,
/// and who writes the review.
pub struct AddMovieReview {
    pub movie_review: MovieAccountState,
    pub initializer: Identity,
}

/// What `update_movie_review` works on: the record as it is stored, and who asks.
pub struct UpdateMovieReview {
    pub movie_review: MovieAccountState,
    pub initializer: Identity,
}

/// What `delete_movie_review` works on: the record as it is stored, and who asks.
pub struct DeleteMovieReview {
    pub movie_review: MovieAccountState,
    pub initializer: Identity,
}

impl AddMovieReview {
    /// Bytes to reserve for the new record.
    pub fn space() -> (bytes: u128)
        ensures
            bytes == initial_space(),
    {
        (DISCRIMINATOR + MovieAccountState::INIT_SPACE) as u128
    }
}

impl UpdateMovieReview {
    /// Bytes to keep for the record once it holds `description`. They are counted in 128
    /// bits, so that no description is too long for the sum.
    pub fn space(description: &str) -> (bytes: u128)
        ensures
            bytes == fitted_space(description@),
    {
        let fixed: usize = DISCRIMINATOR + IDENTITY_LENGTH + 1 + LENGTH_PREFIX + MAX_TITLE_LENGTH
            + LENGTH_PREFIX;
        fixed as u128 + text_len(description) as u128
    }
}

/// Checks a new review and writes it to the record in `ctx`.
///
/// If a check fails, the record is left as it was.
pub fn add_movie_review(
    ctx: &mut AddMovieReview,
    title: String,
    description: String,
    rating: u8,
) -> (result: Result<(), MovieReviewError>)
    ensures
        result == admission(title@, description@, rating),
        result is Ok ==> final(ctx).movie_review@ == (Review {
            reviewer: old(ctx).initializer,
            rating,
            title: title@,
            description: description@,
        }),
        result is Err ==> final(ctx).movie_review == old(ctx).movie_review,
        final(ctx).initializer == old(ctx).initializer,
{
    if !(rating >= MIN_RATING && rating <= MAX_RATING) {
        return Err(MovieReviewError::InvalidRating);
    }
    if text_len(title.as_str()) > MAX_TITLE_LENGTH {
        return Err(MovieReviewError::TitleTooLong);
    }
    if text_len(description.as_str()) > MAX_DESCRIPTION_LENGTH {
        return Err(MovieReviewError::DescriptionTooLong);
    }
    ctx.movie_review.reviewer = ctx.initializer;
    ctx.movie_review.title = title;
    ctx.movie_review.rating = rating;
    ctx.movie_review.description = description;
    Ok(())
}

/// Writes a new rating and a new description to the record in `ctx`.
///
/// Neither is checked against the limits that hold for a new review. The title serves to
/// find the record and is not written.
pub fn update_movie_review(
    ctx: &mut UpdateMovieReview,
    _title: String,
    description: String,
    rating: u8,
) -> (result: Result<(), MovieReviewError>)
    ensures
        result is Ok,
        final(ctx).movie_review@ == (Review {
            rating,
            description: description@,
            ..old(ctx).movie_review@
        }),
        final(ctx).initializer == old(ctx).initializer,
{
    ctx.movie_review.rating = rating;
    ctx.movie_review.description = description;
    Ok(())
}

/// Agrees to the removal of the record in `ctx`. The record itself is given up by whoever
/// holds it.
pub fn delete_movie_review(_ctx: &DeleteMovieReview, _title: String) -> (result: Result<
    (),
    MovieReviewError,
>)
    ensures
        result is Ok,
{
    Ok(())
}

} // verus!
