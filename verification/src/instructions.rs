//! The five calls of the program.
//!
//! Each call is one step: it is refused and changes nothing, or it is applied whole. A
//! call that is applied sizes the storage of what it writes before it writes, and says what
//! the host has to do beside it: mint a reward, or hand back a deposit. Where the host
//! fails at that, it discards the call's writes with it.

use vstd::prelude::*;
use crate::accounts::{AddComment, AddMovieReview, DeleteMovieReview, InitializeMint, UpdateMovieReview};
use crate::address::{mint_signer_seeds, mint_signer_seeds_of, Address};
use crate::constants::{
    COMMENT_REWARD, MAX_COMMENT_LENGTH, MAX_DESCRIPTION_LENGTH, MAX_RATING, MAX_TITLE_LENGTH,
    MINT_DECIMALS, MIN_RATING, REVIEW_REWARD,
};
use crate::error::MovieReviewError;
use crate::state::{
    byte_len, holds_comment, holds_counter, holds_review, stored_len, Account, Mint, MovieAccountState,
    MovieComment, MovieCommentCounter,
};

verus! {

/// A reward for the host's token program to mint. The mint is its own authority: the
/// program signs for it with the mint's seeds, and no secret key is held anywhere.
#[derive(Clone, Copy, Debug, PartialEq, Eq)]
pub struct MintTo {
    /// The reward token's mint.
    pub mint: Address,
    /// The token account that receives the reward.
    pub to: Address,
    /// Who authorizes the minting.
    pub authority: Address,
    /// Base units to mint.
    pub amount: u64,
    /// Bump seed of the authority.
    pub bump: u8,
}

impl MintTo {
    /// The seeds with which the program signs for the authority.
    pub fn signer_seeds(&self) -> (res: Vec<Vec<u8>>)
        ensures
            res.deep_view() == mint_signer_seeds(self.bump),
    {
        mint_signer_seeds_of(self.bump)
    }
}

/// An account for the host to close: its storage goes, and its deposit goes to
/// `destination`.
#[derive(Clone, Copy, Debug, PartialEq, Eq)]
pub struct Close {
    /// The account that is closed.
    pub account: Address,
    /// Who gets the deposit.
    pub destination: Address,
    /// The deposit.
    pub lamports: u64,
}

/// Why a new review with these lengths and this rating is refused, if it is. The rating
/// is looked at first, then the title, then the description.
pub open spec fn review_rejection(title_len: nat, description_len: nat, rating: u8) -> Option<MovieReviewError> {
    if rating < MIN_RATING || rating > MAX_RATING {
        Some(MovieReviewError::InvalidRating)
    } else if title_len > MAX_TITLE_LENGTH {
        Some(MovieReviewError::TitleTooLong)
    } else if description_len > MAX_DESCRIPTION_LENGTH {
        Some(MovieReviewError::DescriptionTooLong)
    } else {
        None
    }
}

/// Why an update under a title of this length, to this description length and this
/// rating, is refused, if it is. The rating is looked at first, then the title, then the
/// description.
pub open spec fn update_rejection(title_len: nat, description_len: nat, rating: u8) -> Option<MovieReviewError> {
    if rating < MIN_RATING || rating > MAX_RATING {
        Some(MovieReviewError::InvalidRating)
    } else if title_len > MAX_TITLE_LENGTH {
        Some(MovieReviewError::TitleTooLong)
    } else if description_len > MAX_DESCRIPTION_LENGTH {
        Some(MovieReviewError::DescriptionTooLong)
    } else {
        None
    }
}

/// Why a comment of this length is refused, if it is.
pub open spec fn comment_rejection(comment_len: nat) -> Option<MovieReviewError> {
    if comment_len > MAX_COMMENT_LENGTH {
        Some(MovieReviewError::CommentTooLong)
    } else {
        None
    }
}

/// What a check says of a rejection: `Ok` where there is none, else the error.
pub open spec fn checked(rejection: Option<MovieReviewError>) -> Result<(), MovieReviewError> {
    match rejection {
        Some(error) => Err(error),
        None => Ok(()),
    }
}

/// Checks a new review before anything is written.
pub fn check_review(title: &str, description: &str, rating: u8) -> (res: Result<(), MovieReviewError>)
    ensures
        res == checked(review_rejection(byte_len(title@), byte_len(description@), rating)),
{
    if rating < MIN_RATING || rating > MAX_RATING {
        Err(MovieReviewError::InvalidRating)
    } else if stored_len(title) > MAX_TITLE_LENGTH {
        Err(MovieReviewError::TitleTooLong)
    } else if stored_len(description) > MAX_DESCRIPTION_LENGTH {
        Err(MovieReviewError::DescriptionTooLong)
    } else {
        Ok(())
    }
}

/// Checks an update of a review before anything is written.
pub fn check_update(title: &str, description: &str, rating: u8) -> (res: Result<(), MovieReviewError>)
    ensures
        res == checked(update_rejection(byte_len(title@), byte_len(description@), rating)),
{
    if rating < MIN_RATING || rating > MAX_RATING {
        Err(MovieReviewError::InvalidRating)
    } else if stored_len(title) > MAX_TITLE_LENGTH {
        Err(MovieReviewError::TitleTooLong)
    } else if stored_len(description) > MAX_DESCRIPTION_LENGTH {
        Err(MovieReviewError::DescriptionTooLong)
    } else {
        Ok(())
    }
}

/// Checks a comment before anything is written.
pub fn check_comment(comment: &str) -> (res: Result<(), MovieReviewError>)
    ensures
        res == checked(comment_rejection(byte_len(comment@))),
{
    if stored_len(comment) > MAX_COMMENT_LENGTH {
        Err(MovieReviewError::CommentTooLong)
    } else {
        Ok(())
    }
}

impl AddMovieReview {
    /// The accounts after the review was created: the review holds the initializer, the
    /// title, the description and the rating in storage of exactly their size, its comment
    /// counter stands at 0, and nothing else has changed.
    pub open spec fn created(self, title: String, description: String, rating: u8) -> AddMovieReview {
        AddMovieReview {
            movie_review: Account {
                space: MovieAccountState::space_for(byte_len(title@), byte_len(description@)) as usize,
                data: MovieAccountState { reviewer: self.initializer, rating, title, description },
                ..self.movie_review
            },
            movie_comment_counter: Account {
                space: MovieCommentCounter::SPACE,
                data: MovieCommentCounter { counter: 0 },
                ..self.movie_comment_counter
            },
            ..self
        }
    }

    /// The reward for the review: `REVIEW_REWARD` to the initializer's token account.
    pub open spec fn reward(self) -> MintTo {
        MintTo {
            mint: self.mint,
            to: self.token_account,
            authority: self.mint,
            amount: REVIEW_REWARD,
            bump: self.bumps.mint,
        }
    }
}

impl AddComment {
    /// The accounts after the comment was appended: the comment holds the review's address,
    /// the initializer, the text and the counter's value in storage of exactly their size,
    /// the counter is one higher, and nothing else has changed.
    pub open spec fn appended(self, comment: String) -> AddComment {
        AddComment {
            movie_comment: Account {
                space: MovieComment::space_for(byte_len(comment@)) as usize,
                data: MovieComment {
                    review: self.movie_review.key,
                    commenter: self.initializer,
                    comment,
                    count: self.movie_comment_counter.data.counter,
                },
                ..self.movie_comment
            },
            movie_comment_counter: Account {
                data: MovieCommentCounter { counter: (self.movie_comment_counter.data.counter + 1) as u64 },
                ..self.movie_comment_counter
            },
            ..self
        }
    }

    /// The reward for the comment: `COMMENT_REWARD` to the initializer's token account.
    pub open spec fn reward(self) -> MintTo {
        MintTo {
            mint: self.mint,
            to: self.token_account,
            authority: self.mint,
            amount: COMMENT_REWARD,
            bump: self.bumps.mint,
        }
    }
}

impl UpdateMovieReview {
    /// The accounts after the review was updated: it holds the new description and rating
    /// beside the title and the author it had, in storage of exactly their size, and
    /// nothing else has changed.
    pub open spec fn updated(self, description: String, rating: u8) -> UpdateMovieReview {
        UpdateMovieReview {
            movie_review: Account {
                space: MovieAccountState::space_for(
                    byte_len(self.movie_review.data.title@),
                    byte_len(description@),
                ) as usize,
                data: MovieAccountState { rating, description, ..self.movie_review.data },
                ..self.movie_review
            },
            ..self
        }
    }
}

impl DeleteMovieReview {
    /// Whether these are the accounts `before` after the review was deleted: the review's
    /// account is where it was and holds no storage, no deposit and no review, and nothing
    /// else has changed.
    pub open spec fn deleted_from(self, before: DeleteMovieReview) -> bool {
        &&& self.movie_review.key == before.movie_review.key
        &&& self.movie_review.lamports == 0
        &&& self.movie_review.space == 0
        &&& self.movie_review.data.is_empty()
        &&& self.initializer == before.initializer
        &&& self.bumps == before.bumps
    }

    /// What the host has to do for the deletion: hand the review's whole deposit to the
    /// initializer.
    pub open spec fn refund(self) -> Close {
        Close {
            account: self.movie_review.key,
            destination: self.initializer,
            lamports: self.movie_review.lamports,
        }
    }
}

impl InitializeMint {
    /// The accounts after the mint was set up: the mint has `MINT_DECIMALS` decimals and is
    /// its own authority, and nothing else has changed.
    pub open spec fn initialized(self) -> InitializeMint {
        InitializeMint {
            mint: Account {
                data: Mint { mint_authority: self.mint.key, decimals: MINT_DECIMALS },
                ..self.mint
            },
            ..self
        }
    }
}

/// Creates the review of `title` by the initializer, with its comment counter at 0, and
/// asks for the reward.
///
/// The call is refused, and nothing changes, exactly where `review_rejection` says so.
pub fn add_movie_review(ctx: &mut AddMovieReview, title: String, description: String, rating: u8) -> (res: Result<
    MintTo,
    MovieReviewError,
>)
    ensures
        match res {
            Ok(reward) => {
                &&& review_rejection(byte_len(title@), byte_len(description@), rating) is None
                &&& *final(ctx) == old(ctx).created(title, description, rating)
                &&& reward == old(ctx).reward()
            },
            Err(error) => {
                &&& review_rejection(byte_len(title@), byte_len(description@), rating) == Some(error)
                &&& *final(ctx) == *old(ctx)
            },
        },
        rating < MIN_RATING || rating > MAX_RATING ==> res == Err::<MintTo, MovieReviewError>(
            MovieReviewError::InvalidRating,
        ),
        byte_len(title@) > MAX_TITLE_LENGTH || byte_len(description@) > MAX_DESCRIPTION_LENGTH ==> res is Err,
        res is Err ==> *final(ctx) == *old(ctx),
        res is Ok ==> final(ctx).movie_review.space == final(ctx).movie_review.data.size(),
        res is Ok ==> holds_review(final(ctx).movie_review) && holds_counter(final(ctx).movie_comment_counter),
        res matches Ok(reward) ==> reward.amount == REVIEW_REWARD && reward.to == old(ctx).token_account,
{
    match check_review(title.as_str(), description.as_str(), rating) {
        Err(error) => Err(error),
        Ok(()) => {
            let space = MovieAccountState::space(stored_len(title.as_str()), stored_len(description.as_str()));
            ctx.movie_review.space = space;
            ctx.movie_review.data.reviewer = ctx.initializer;
            ctx.movie_review.data.title = title;
            ctx.movie_review.data.description = description;
            ctx.movie_review.data.rating = rating;
            ctx.movie_comment_counter.space = MovieCommentCounter::SPACE;
            ctx.movie_comment_counter.data.counter = 0;
            Ok(
                MintTo {
                    mint: ctx.mint,
                    to: ctx.token_account,
                    authority: ctx.mint,
                    amount: REVIEW_REWARD,
                    bump: ctx.bumps.mint,
                },
            )
        },
    }
}

/// Appends a comment to the review: the comment gets the counter's value as its number,
/// the counter goes up by one, and the reward is asked for.
///
/// The call is refused, and nothing changes, exactly where `comment_rejection` says so,
/// whatever the counter holds. For a comment that is not refused the counter must have
/// room to go up.
pub fn add_comment(ctx: &mut AddComment, comment: String) -> (res: Result<MintTo, MovieReviewError>)
    requires
        byte_len(comment@) <= MAX_COMMENT_LENGTH ==> old(ctx).movie_comment_counter.data.counter < u64::MAX,
    ensures
        match res {
            Ok(reward) => {
                &&& comment_rejection(byte_len(comment@)) is None
                &&& *final(ctx) == old(ctx).appended(comment)
                &&& reward == old(ctx).reward()
            },
            Err(error) => {
                &&& comment_rejection(byte_len(comment@)) == Some(error)
                &&& *final(ctx) == *old(ctx)
            },
        },
        byte_len(comment@) > MAX_COMMENT_LENGTH ==> res == Err::<MintTo, MovieReviewError>(
            MovieReviewError::CommentTooLong,
        ),
        res is Err ==> *final(ctx) == *old(ctx),
        res is Ok ==> final(ctx).movie_comment.space == final(ctx).movie_comment.data.size(),
        res is Ok ==> holds_comment(final(ctx).movie_comment),
        holds_counter(old(ctx).movie_comment_counter) ==> holds_counter(final(ctx).movie_comment_counter),
        res is Ok ==> final(ctx).movie_comment.data.count == old(ctx).movie_comment_counter.data.counter,
        res is Ok ==> final(ctx).movie_comment_counter.data.counter == old(ctx).movie_comment_counter.data.counter
            + 1,
        res matches Ok(reward) ==> reward.amount == COMMENT_REWARD && reward.to == old(ctx).token_account,
{
    match check_comment(comment.as_str()) {
        Err(error) => Err(error),
        Ok(()) => {
            let space = MovieComment::space(stored_len(comment.as_str()));
            ctx.movie_comment.space = space;
            ctx.movie_comment.data.review = ctx.movie_review.key;
            ctx.movie_comment.data.commenter = ctx.initializer;
            ctx.movie_comment.data.comment = comment;
            ctx.movie_comment.data.count = ctx.movie_comment_counter.data.counter;
            ctx.movie_comment_counter.data.counter = ctx.movie_comment_counter.data.counter + 1;
            Ok(
                MintTo {
                    mint: ctx.mint,
                    to: ctx.token_account,
                    authority: ctx.mint,
                    amount: COMMENT_REWARD,
                    bump: ctx.bumps.mint,
                },
            )
        },
    }
}

/// Replaces the description and the rating of the review of `title` by the initializer,
/// and sizes its storage anew, by the title that the review holds and the new description.
/// The title and the author stay.
///
/// The call is refused, and nothing changes, exactly where `update_rejection` says so.
/// Where it is not refused, the new size must fit in `usize`.
pub fn update_movie_review(ctx: &mut UpdateMovieReview, title: String, description: String, rating: u8) -> (res:
    Result<(), MovieReviewError>)
    requires
        update_rejection(byte_len(title@), byte_len(description@), rating) is None
            ==> MovieAccountState::space_for(
            byte_len(old(ctx).movie_review.data.title@),
            byte_len(description@),
        ) <= usize::MAX,
    ensures
        match res {
            Ok(()) => {
                &&& update_rejection(byte_len(title@), byte_len(description@), rating) is None
                &&& *final(ctx) == old(ctx).updated(description, rating)
            },
            Err(error) => {
                &&& update_rejection(byte_len(title@), byte_len(description@), rating) == Some(error)
                &&& *final(ctx) == *old(ctx)
            },
        },
        rating < MIN_RATING || rating > MAX_RATING ==> res == Err::<(), MovieReviewError>(
            MovieReviewError::InvalidRating,
        ),
        byte_len(title@) > MAX_TITLE_LENGTH || byte_len(description@) > MAX_DESCRIPTION_LENGTH ==> res is Err,
        res is Err ==> *final(ctx) == *old(ctx),
        res is Ok ==> final(ctx).movie_review.space == final(ctx).movie_review.data.size(),
        res is Ok ==> final(ctx).movie_review.data.title == old(ctx).movie_review.data.title,
        res is Ok && byte_len(old(ctx).movie_review.data.title@) <= MAX_TITLE_LENGTH ==> holds_review(
            final(ctx).movie_review,
        ),
{
    match check_update(title.as_str(), description.as_str(), rating) {
        Err(error) => Err(error),
        Ok(()) => {
            let space = MovieAccountState::space(
                stored_len(ctx.movie_review.data.title.as_str()),
                stored_len(description.as_str()),
            );
            ctx.movie_review.space = space;
            ctx.movie_review.data.description = description;
            ctx.movie_review.data.rating = rating;
            Ok(())
        },
    }
}

/// Deletes the review of `title` by the initializer: its account keeps no storage, no
/// deposit and no review, and the whole deposit is to go back to the initializer. The
/// review's comments and its counter stay as they are.
///
/// The call is never refused.
pub fn delete_movie_review(ctx: &mut DeleteMovieReview, title: String) -> (res: Result<Close, MovieReviewError>)
    ensures
        res == Ok::<Close, MovieReviewError>(old(ctx).refund()),
        final(ctx).deleted_from(*old(ctx)),
{
    let refund = Close {
        account: ctx.movie_review.key,
        destination: ctx.initializer,
        lamports: ctx.movie_review.lamports,
    };
    ctx.movie_review.lamports = 0;
    ctx.movie_review.space = 0;
    ctx.movie_review.data = MovieAccountState::empty();
    Ok(refund)
}

/// Sets up the reward token's mint with `MINT_DECIMALS` decimals and itself as authority.
///
/// The call is never refused.
pub fn initialize_token_mint(ctx: &mut InitializeMint) -> (res: Result<(), MovieReviewError>)
    ensures
        res is Ok,
        *final(ctx) == old(ctx).initialized(),
{
    ctx.mint.data.mint_authority = ctx.mint.key;
    ctx.mint.data.decimals = MINT_DECIMALS;
    Ok(())
}

} // verus!
