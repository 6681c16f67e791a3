//! What holds of the program over all inputs and over runs of calls.

use vstd::prelude::*;
use crate::accounts::{is_token_account_of, sits_at, AddComment, AddMovieReview, DeleteMovieReview, UpdateMovieReview};
use crate::address::{mint_seeds, movie_review_seeds};
use crate::constants::{
    COMMENT_REWARD, MAX_COMMENT_LENGTH, MAX_DESCRIPTION_LENGTH, MAX_RATING, MAX_TITLE_LENGTH, MIN_RATING,
    REVIEW_REWARD,
};
use crate::error::MovieReviewError;
use crate::instructions::{comment_rejection, review_rejection, update_rejection};
use crate::state::{byte_len, holds_comment, holds_counter, holds_review, MovieAccountState};

verus! {

/// A rating below `MIN_RATING` or above `MAX_RATING` is refused as invalid, on create and on
/// update, whatever the title and the description.
pub proof fn lemma_rating_out_of_range_is_refused(title_len: nat, description_len: nat, rating: u8)
    requires
        rating < MIN_RATING || rating > MAX_RATING,
    ensures
        review_rejection(title_len, description_len, rating) == Some(MovieReviewError::InvalidRating),
        update_rejection(title_len, description_len, rating) == Some(MovieReviewError::InvalidRating),
{
}

/// A title, a description or a comment longer than its maximum is refused, on create, on
/// update and on append, whatever comes with it; with a valid rating, and a valid title
/// before the description, the error names what was too long.
pub proof fn lemma_too_long_is_refused(title_len: nat, description_len: nat, comment_len: nat, rating: u8)
    ensures
        title_len > MAX_TITLE_LENGTH ==> review_rejection(title_len, description_len, rating) is Some,
        title_len > MAX_TITLE_LENGTH ==> update_rejection(title_len, description_len, rating) is Some,
        description_len > MAX_DESCRIPTION_LENGTH ==> review_rejection(title_len, description_len, rating) is Some,
        description_len > MAX_DESCRIPTION_LENGTH ==> update_rejection(title_len, description_len, rating) is Some,
        comment_len > MAX_COMMENT_LENGTH ==> comment_rejection(comment_len) == Some(MovieReviewError::CommentTooLong),
        MIN_RATING <= rating <= MAX_RATING && title_len > MAX_TITLE_LENGTH ==> {
            &&& review_rejection(title_len, description_len, rating) == Some(MovieReviewError::TitleTooLong)
            &&& update_rejection(title_len, description_len, rating) == Some(MovieReviewError::TitleTooLong)
        },
        MIN_RATING <= rating <= MAX_RATING && title_len <= MAX_TITLE_LENGTH && description_len
            > MAX_DESCRIPTION_LENGTH ==> {
            &&& review_rejection(title_len, description_len, rating) == Some(MovieReviewError::DescriptionTooLong)
            &&& update_rejection(title_len, description_len, rating) == Some(MovieReviewError::DescriptionTooLong)
        },
{
}

/// Nothing else is refused: a call within all its bounds is accepted.
pub proof fn lemma_within_bounds_is_accepted(title_len: nat, description_len: nat, comment_len: nat, rating: u8)
    ensures
        MIN_RATING <= rating <= MAX_RATING && title_len <= MAX_TITLE_LENGTH && description_len
            <= MAX_DESCRIPTION_LENGTH ==> {
            &&& review_rejection(title_len, description_len, rating) is None
            &&& update_rejection(title_len, description_len, rating) is None
        },
        comment_len <= MAX_COMMENT_LENGTH ==> comment_rejection(comment_len) is None,
{
}

/// After a review was created, its storage is exactly the header plus the bytes of the
/// title and the description that it now holds; so is its counter's.
pub proof fn lemma_storage_is_exact_after_create(ctx: AddMovieReview, title: String, description: String, rating: u8)
    requires
        review_rejection(byte_len(title@), byte_len(description@), rating) is None,
    ensures
        ctx.created(title, description, rating).movie_review.space == ctx.created(
            title,
            description,
            rating,
        ).movie_review.data.size(),
        ctx.created(title, description, rating).movie_review.space == MovieAccountState::INIT_SPACE + byte_len(
            title@,
        ) + byte_len(description@),
        holds_review(ctx.created(title, description, rating).movie_review),
        holds_counter(ctx.created(title, description, rating).movie_comment_counter),
{
}

/// After a review was updated, its storage is exactly the header plus the bytes of the
/// title and the description that it now holds; and a review that was within its bounds
/// still is.
pub proof fn lemma_storage_is_exact_after_update(ctx: UpdateMovieReview, title: String, description: String, rating: u8)
    requires
        update_rejection(byte_len(title@), byte_len(description@), rating) is None,
        MovieAccountState::space_for(byte_len(ctx.movie_review.data.title@), byte_len(description@))
            <= usize::MAX,
    ensures
        ctx.updated(description, rating).movie_review.space == ctx.updated(
            description,
            rating,
        ).movie_review.data.size(),
        ctx.updated(description, rating).movie_review.data.title == ctx.movie_review.data.title,
        byte_len(ctx.movie_review.data.title@) <= MAX_TITLE_LENGTH ==> holds_review(
            ctx.updated(description, rating).movie_review,
        ),
{
}

/// After a comment was appended, its storage is exactly the header plus the bytes of its
/// text.
pub proof fn lemma_storage_is_exact_after_comment(ctx: AddComment, comment: String)
    requires
        comment_rejection(byte_len(comment@)) is None,
    ensures
        ctx.appended(comment).movie_comment.space == ctx.appended(comment).movie_comment.data.size(),
        holds_comment(ctx.appended(comment).movie_comment),
        holds_counter(ctx.movie_comment_counter) ==> holds_counter(ctx.appended(comment).movie_comment_counter),
{
}

/// Whether `calls` are accepted appends that follow one another on one counter: each finds
/// the counter as the one before left it.
pub open spec fn appends_in_turn(calls: Seq<(AddComment, String)>) -> bool {
    &&& forall|i: int| 0 <= i < calls.len() ==> comment_rejection(byte_len((#[trigger] calls[i]).1@)) is None
    &&& forall|i: int|
        0 <= i < calls.len() - 1 ==> (#[trigger] calls[i + 1]).0.movie_comment_counter == calls[i].0.appended(
            calls[i].1,
        ).movie_comment_counter
}

/// Appends that follow one another on the counter of a new review number their comments
/// 0, 1, 2 and so on, with no gap and none twice, and leave the counter at their count.
pub proof fn lemma_comment_numbers_have_no_gaps(
    review: AddMovieReview,
    title: String,
    description: String,
    rating: u8,
    calls: Seq<(AddComment, String)>,
)
    requires
        review_rejection(byte_len(title@), byte_len(description@), rating) is None,
        appends_in_turn(calls),
        calls.len() > 0 ==> calls[0].0.movie_comment_counter == review.created(
            title,
            description,
            rating,
        ).movie_comment_counter,
        calls.len() <= u64::MAX,
    ensures
        forall|i: int|
            0 <= i < calls.len() ==> {
                &&& (#[trigger] calls[i]).0.movie_comment_counter.data.counter == i
                &&& calls[i].0.appended(calls[i].1).movie_comment.data.count == i
                &&& calls[i].0.appended(calls[i].1).movie_comment_counter.data.counter == i + 1
            },
        forall|i: int, j: int|
            0 <= i < j < calls.len() ==> (#[trigger] calls[i]).0.appended(calls[i].1).movie_comment.data.count < (
            #[trigger] calls[j]).0.appended(calls[j].1).movie_comment.data.count,
{
    lemma_counter_counts(calls, calls.len() as int);
}

/// The first `n` of appends that follow one another from a counter at 0 each find the
/// counter at their own position.
proof fn lemma_counter_counts(calls: Seq<(AddComment, String)>, n: int)
    requires
        appends_in_turn(calls),
        calls.len() > 0 ==> calls[0].0.movie_comment_counter.data.counter == 0,
        calls.len() <= u64::MAX,
        0 <= n <= calls.len(),
    ensures
        forall|i: int| 0 <= i < n ==> (#[trigger] calls[i]).0.movie_comment_counter.data.counter == i,
    decreases n,
{
    if n > 1 {
        lemma_counter_counts(calls, n - 1);
        assert(calls[n - 2].0.movie_comment_counter.data.counter == n - 2);
        assert(calls[n - 2 + 1].0.movie_comment_counter == calls[n - 2].0.appended(
            calls[n - 2].1,
        ).movie_comment_counter);
    }
}

/// Deleting a review hands its whole deposit to the initializer and leaves its account
/// with no storage, no deposit and no review; and that account is where a new review of
/// the same title by the same initializer goes, which is then created as any other.
pub proof fn lemma_delete_frees_the_address(
    before: DeleteMovieReview,
    after: DeleteMovieReview,
    program_id: Seq<u8>,
    title: String,
    again: AddMovieReview,
    description: String,
    rating: u8,
)
    requires
        before.seeds_hold(program_id, vstd::utf8::encode_utf8(title@)),
        after.deleted_from(before),
        again.movie_review == after.movie_review,
        again.initializer == after.initializer,
        again.bumps.movie_review == after.bumps.movie_review,
        review_rejection(byte_len(title@), byte_len(description@), rating) is None,
    ensures
        before.refund().lamports == before.movie_review.lamports,
        before.refund().destination == before.initializer,
        before.refund().account == before.movie_review.key,
        after.movie_review.lamports == 0,
        after.movie_review.space == 0,
        after.movie_review.data.is_empty(),
        sits_at(
            again.movie_review.key,
            again.bumps.movie_review,
            movie_review_seeds(vstd::utf8::encode_utf8(title@), again.initializer@),
            program_id,
        ),
        again.created(title, description, rating).movie_review.key == before.movie_review.key,
        again.created(title, description, rating).movie_review.data.title == title,
        again.created(title, description, rating).movie_review.data.reviewer == before.initializer,
        again.created(title, description, rating).movie_review.space == again.created(
            title,
            description,
            rating,
        ).movie_review.data.size(),
{
}

/// An accepted create asks for `REVIEW_REWARD`, and an accepted append for
/// `COMMENT_REWARD`, to be minted to the token account of the call, with the mint as its
/// own authority. Where the seeds of the call hold, that account is the initializer's token
/// account for the mint, and the authority sits at the address that the mint's seeds give.
pub proof fn lemma_reward_is_fixed(review: AddMovieReview, title: Seq<u8>, comment: AddComment, program_id: Seq<u8>)
    ensures
        review.reward().amount == REVIEW_REWARD,
        review.reward().to == review.token_account,
        review.reward().mint == review.mint,
        review.reward().authority == review.mint,
        comment.reward().amount == COMMENT_REWARD,
        comment.reward().to == comment.token_account,
        comment.reward().mint == comment.mint,
        comment.reward().authority == comment.mint,
        review.seeds_hold(program_id, title) ==> {
            &&& is_token_account_of(review.reward().to, review.initializer, review.reward().mint)
            &&& sits_at(review.reward().authority, review.reward().bump, mint_seeds(), program_id)
        },
        comment.seeds_hold(program_id) ==> {
            &&& is_token_account_of(comment.reward().to, comment.initializer, comment.reward().mint)
            &&& sits_at(comment.reward().authority, comment.reward().bump, mint_seeds(), program_id)
        },
{
}

} // verus!
