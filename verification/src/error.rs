use vstd::prelude::*;

verus! {

/// Why an operation on the review table was refused.
#[derive(Clone, Copy, Debug, PartialEq, Eq, Structural)]
pub enum MovieReviewError {
    /// The rating is not between 1 and 5.
    InvalidRating,
    /// The title is longer than 20 bytes.
    TitleTooLong,
    /// The description is longer than 50 bytes.
    DescriptionTooLong,
    /// A review with this title by this author is already stored.
    AlreadyExists,
    /// No review with this title by this author is stored.
    NotFound,
}

} // verus!
