//! The conditions on which the program refuses a call.

use vstd::prelude::*;

verus! {

/// Why a call was refused. A refused call changes nothing.
#[derive(Clone, Copy, Debug, PartialEq, Eq, Structural)]
pub enum MovieReviewError {
    /// The rating is below `MIN_RATING` or above `MAX_RATING`.
    InvalidRating,
    /// The title has more than `MAX_TITLE_LENGTH` bytes.
    TitleTooLong,
    /// The description has more than `MAX_DESCRIPTION_LENGTH` bytes.
    DescriptionTooLong,
    /// The comment has more than `MAX_COMMENT_LENGTH` bytes.
    CommentTooLong,
}

/// First number of the codes under which the host reports a program's own errors.
pub const ERROR_CODE_OFFSET: u32 = 6000;

impl MovieReviewError {
    /// Position of the variant in the declaration, from 0.
    pub open spec fn ordinal(self) -> nat {
        match self {
            MovieReviewError::InvalidRating => 0,
            MovieReviewError::TitleTooLong => 1,
            MovieReviewError::DescriptionTooLong => 2,
            MovieReviewError::CommentTooLong => 3,
        }
    }

    /// The text that goes with the error.
    pub open spec fn message_text(self) -> Seq<char> {
        match self {
            MovieReviewError::InvalidRating => "Rating must be between 1 and 5"@,
            MovieReviewError::TitleTooLong => "Movie Title too long"@,
            MovieReviewError::DescriptionTooLong => "Movie Description too long"@,
            MovieReviewError::CommentTooLong => "Movie Comment too long"@,
        }
    }

    /// The code under which the host reports the error: the offset plus the variant's position.
    pub fn code(&self) -> (res: u32)
        ensures
            res == ERROR_CODE_OFFSET + self.ordinal(),
    {
        match self {
            MovieReviewError::InvalidRating => ERROR_CODE_OFFSET,
            MovieReviewError::TitleTooLong => ERROR_CODE_OFFSET + 1,
            MovieReviewError::DescriptionTooLong => ERROR_CODE_OFFSET + 2,
            MovieReviewError::CommentTooLong => ERROR_CODE_OFFSET + 3,
        }
    }

    /// The text that goes with the error.
    pub fn message(&self) -> (res: &'static str)
        ensures
            res@ == self.message_text(),
    {
        match self {
            MovieReviewError::InvalidRating => "Rating must be between 1 and 5",
            MovieReviewError::TitleTooLong => "Movie Title too long",
            MovieReviewError::DescriptionTooLong => "Movie Description too long",
            MovieReviewError::CommentTooLong => "Movie Comment too long",
        }
    }
}

} // verus!
