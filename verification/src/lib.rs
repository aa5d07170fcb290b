//! Movie reviews, at most one for each title and author.
//!
//! `instructions` holds the three steps that work on one record: checking and writing a
//! new review, rewriting the rating and description of a stored one, and agreeing to its
//! removal. `store` holds the table of all reviews, which finds the record for a title and
//! an author, applies a step to it, and keeps account of the bytes reserved for each
//! record. `table` says what each operation does to the table, and `laws` what follows
//! from that.

pub mod account;
pub mod error;
pub mod instructions;
pub mod laws;
pub mod store;
pub mod table;

pub use account::{
    same_text, text_len, Identity, MovieAccountState, DISCRIMINATOR, IDENTITY_LENGTH,
    LENGTH_PREFIX, MAX_DESCRIPTION_LENGTH, MAX_RATING, MAX_TITLE_LENGTH, MIN_RATING,
};
pub use error::MovieReviewError;
pub use instructions::{
    add_movie_review, delete_movie_review, update_movie_review, AddMovieReview,
    DeleteMovieReview, UpdateMovieReview,
};
pub use store::ReviewStore;
