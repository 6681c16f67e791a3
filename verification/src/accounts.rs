//! The accounts of each call, and the addresses they must sit at.
//!
//! A call names its accounts; the program accepts only those that sit where its seeds
//! put them. `check_seeds` of each set of accounts derives every such address again and
//! compares, bump seeds included.

use vstd::prelude::*;
use vstd::string::StringSliceAdditionalSpecFns;
use crate::address::{
    associated_token_address, associated_token_seeds, comment_address, comment_counter_address,
    comment_counter_seeds, comment_seeds, found, lemma_address_by_bytes, mint_address, mint_seeds,
    movie_review_address, movie_review_seeds, program_address, Address,
};
use crate::constants::ASSOCIATED_TOKEN_PROGRAM_ID;
use crate::state::{Account, Mint, MovieAccountState, MovieComment, MovieCommentCounter};

verus! {

/// Whether `key` and `bump` are what the runtime derives for `seeds` under `program_id`.
pub open spec fn sits_at(key: Address, bump: u8, seeds: Seq<Seq<u8>>, program_id: Seq<u8>) -> bool {
    program_address(seeds, program_id) == Some((key@, bump))
}

/// Whether `key` is the token account of `wallet` for `mint`.
pub open spec fn is_token_account_of(key: Address, wallet: Address, mint: Address) -> bool {
    program_address(associated_token_seeds(wallet@, mint@), ASSOCIATED_TOKEN_PROGRAM_ID@) matches Some((bytes, _))
        && bytes == key@
}

/// Whether a derivation gave the address `key` with the bump seed `bump`.
pub fn derived_is(derived: Option<(Address, u8)>, key: &Address, bump: u8) -> (res: bool)
    ensures
        res == (derived == Some((*key, bump))),
{
    match derived {
        Some((address, found_bump)) => {
            proof {
                lemma_address_by_bytes(address, *key);
            }
            address == *key && found_bump == bump
        },
        None => false,
    }
}

/// Whether a derivation gave the address `key`.
pub fn derived_address_is(derived: Option<Address>, key: &Address) -> (res: bool)
    ensures
        res == (derived == Some(*key)),
{
    match derived {
        Some(address) => {
            proof {
                lemma_address_by_bytes(address, *key);
            }
            address == *key
        },
        None => false,
    }
}

/// What `derived_is` says of a derivation, by what the runtime derives.
pub proof fn lemma_derived_sits(derived: Option<(Address, u8)>, key: Address, bump: u8, seeds: Seq<Seq<u8>>, program_id: Seq<u8>)
    requires
        found(derived) == program_address(seeds, program_id),
    ensures
        derived == Some((key, bump)) <==> sits_at(key, bump, seeds, program_id),
{
    if let Some((address, _)) = derived {
        lemma_address_by_bytes(address, key);
    }
}

/// What `derived_address_is` says of a token account's derivation, by what the runtime
/// derives.
pub proof fn lemma_token_account_sits(derived: Option<Address>, key: Address, wallet: Address, mint: Address)
    requires
        match derived {
            Some(address) => program_address(associated_token_seeds(wallet@, mint@), ASSOCIATED_TOKEN_PROGRAM_ID@)
                matches Some((bytes, _)) && bytes == address@,
            None => program_address(associated_token_seeds(wallet@, mint@), ASSOCIATED_TOKEN_PROGRAM_ID@) is None,
        },
    ensures
        derived == Some(key) <==> is_token_account_of(key, wallet, mint),
{
    if let Some(address) = derived {
        lemma_address_by_bytes(address, key);
    }
}

/// Bump seeds of the derived accounts of `AddMovieReview`.
#[derive(Clone, Copy, Debug, PartialEq, Eq)]
pub struct AddMovieReviewBumps {
    pub movie_review: u8,
    pub movie_comment_counter: u8,
    pub mint: u8,
}

/// Accounts of a call that creates a review.
#[derive(Clone, Debug, PartialEq, Eq)]
pub struct AddMovieReview {
    /// Where the review goes. Its seeds are the title and the initializer.
    pub movie_review: Account<MovieAccountState>,
    /// Who calls, signs and pays for the storage.
    pub initializer: Address,
    /// Where the review's comment counter goes. Its seeds are `COUNTER_SEED` and the
    /// review's address.
    pub movie_comment_counter: Account<MovieCommentCounter>,
    /// The reward token's mint. Its seed is `MINT_SEED`.
    pub mint: Address,
    /// The initializer's token account for the mint.
    pub token_account: Address,
    /// Bump seeds of the derived accounts.
    pub bumps: AddMovieReviewBumps,
}

impl AddMovieReview {
    /// Whether every derived account sits at the address, and has the bump seed, that its
    /// seeds give under `program_id`, for a review of the title with the bytes `title`.
    pub open spec fn seeds_hold(self, program_id: Seq<u8>, title: Seq<u8>) -> bool {
        &&& sits_at(
            self.movie_review.key,
            self.bumps.movie_review,
            movie_review_seeds(title, self.initializer@),
            program_id,
        )
        &&& sits_at(
            self.movie_comment_counter.key,
            self.bumps.movie_comment_counter,
            comment_counter_seeds(self.movie_review.key@),
            program_id,
        )
        &&& sits_at(self.mint, self.bumps.mint, mint_seeds(), program_id)
        &&& is_token_account_of(self.token_account, self.initializer, self.mint)
    }

    /// Whether the accounts are the ones that were derived: the review, its counter and the
    /// mint with their bump seeds, and the token account.
    pub fn seeds_match(
        &self,
        movie_review: Option<(Address, u8)>,
        movie_comment_counter: Option<(Address, u8)>,
        mint: Option<(Address, u8)>,
        token_account: Option<Address>,
    ) -> (res: bool)
        ensures
            res == {
                &&& movie_review == Some((self.movie_review.key, self.bumps.movie_review))
                &&& movie_comment_counter == Some((self.movie_comment_counter.key, self.bumps.movie_comment_counter))
                &&& mint == Some((self.mint, self.bumps.mint))
                &&& token_account == Some(self.token_account)
            },
    {
        derived_is(movie_review, &self.movie_review.key, self.bumps.movie_review) && derived_is(
            movie_comment_counter,
            &self.movie_comment_counter.key,
            self.bumps.movie_comment_counter,
        ) && derived_is(mint, &self.mint, self.bumps.mint) && derived_address_is(token_account, &self.token_account)
    }

    /// Derives the address of every derived account again and compares.
    pub fn check_seeds(&self, program_id: &Address, title: &str) -> (res: bool)
        ensures
            res == self.seeds_hold(program_id@, title.spec_bytes()),
    {
        let movie_review = movie_review_address(program_id, title, &self.initializer);
        let movie_comment_counter = comment_counter_address(program_id, &self.movie_review.key);
        let mint = mint_address(program_id);
        let token_account = associated_token_address(&self.initializer, &self.mint);
        proof {
            lemma_derived_sits(
                movie_review,
                self.movie_review.key,
                self.bumps.movie_review,
                movie_review_seeds(title.spec_bytes(), self.initializer@),
                program_id@,
            );
            lemma_derived_sits(
                movie_comment_counter,
                self.movie_comment_counter.key,
                self.bumps.movie_comment_counter,
                comment_counter_seeds(self.movie_review.key@),
                program_id@,
            );
            lemma_derived_sits(mint, self.mint, self.bumps.mint, mint_seeds(), program_id@);
            lemma_token_account_sits(token_account, self.token_account, self.initializer, self.mint);
        }
        self.seeds_match(movie_review, movie_comment_counter, mint, token_account)
    }
}

/// Bump seeds of the derived accounts of `AddComment`.
#[derive(Clone, Copy, Debug, PartialEq, Eq)]
pub struct AddCommentBumps {
    pub movie_comment: u8,
    pub movie_comment_counter: u8,
    pub mint: u8,
}

/// Accounts of a call that appends a comment to a review.
#[derive(Clone, Debug, PartialEq, Eq)]
pub struct AddComment {
    /// Where the comment goes. Its seeds are the review's address and the counter's value.
    pub movie_comment: Account<MovieComment>,
    /// The review that is commented on.
    pub movie_review: Account<MovieAccountState>,
    /// The review's comment counter. Its seeds are `COUNTER_SEED` and the review's address.
    pub movie_comment_counter: Account<MovieCommentCounter>,
    /// The reward token's mint. Its seed is `MINT_SEED`.
    pub mint: Address,
    /// The initializer's token account for the mint.
    pub token_account: Address,
    /// Who calls, signs and pays for the storage.
    pub initializer: Address,
    /// Bump seeds of the derived accounts.
    pub bumps: AddCommentBumps,
}

impl AddComment {
    /// Whether every derived account sits at the address, and has the bump seed, that its
    /// seeds give under `program_id`.
    pub open spec fn seeds_hold(self, program_id: Seq<u8>) -> bool {
        &&& sits_at(
            self.movie_comment.key,
            self.bumps.movie_comment,
            comment_seeds(self.movie_review.key@, self.movie_comment_counter.data.counter),
            program_id,
        )
        &&& sits_at(
            self.movie_comment_counter.key,
            self.bumps.movie_comment_counter,
            comment_counter_seeds(self.movie_review.key@),
            program_id,
        )
        &&& sits_at(self.mint, self.bumps.mint, mint_seeds(), program_id)
        &&& is_token_account_of(self.token_account, self.initializer, self.mint)
    }

    /// Whether the accounts are the ones that were derived: the comment, the counter and the
    /// mint with their bump seeds, and the token account.
    pub fn seeds_match(
        &self,
        movie_comment: Option<(Address, u8)>,
        movie_comment_counter: Option<(Address, u8)>,
        mint: Option<(Address, u8)>,
        token_account: Option<Address>,
    ) -> (res: bool)
        ensures
            res == {
                &&& movie_comment == Some((self.movie_comment.key, self.bumps.movie_comment))
                &&& movie_comment_counter == Some((self.movie_comment_counter.key, self.bumps.movie_comment_counter))
                &&& mint == Some((self.mint, self.bumps.mint))
                &&& token_account == Some(self.token_account)
            },
    {
        derived_is(movie_comment, &self.movie_comment.key, self.bumps.movie_comment) && derived_is(
            movie_comment_counter,
            &self.movie_comment_counter.key,
            self.bumps.movie_comment_counter,
        ) && derived_is(mint, &self.mint, self.bumps.mint) && derived_address_is(token_account, &self.token_account)
    }

    /// Derives the address of every derived account again and compares.
    pub fn check_seeds(&self, program_id: &Address) -> (res: bool)
        ensures
            res == self.seeds_hold(program_id@),
    {
        let movie_comment = comment_address(
            program_id,
            &self.movie_review.key,
            self.movie_comment_counter.data.counter,
        );
        let movie_comment_counter = comment_counter_address(program_id, &self.movie_review.key);
        let mint = mint_address(program_id);
        let token_account = associated_token_address(&self.initializer, &self.mint);
        proof {
            lemma_derived_sits(
                movie_comment,
                self.movie_comment.key,
                self.bumps.movie_comment,
                comment_seeds(self.movie_review.key@, self.movie_comment_counter.data.counter),
                program_id@,
            );
            lemma_derived_sits(
                movie_comment_counter,
                self.movie_comment_counter.key,
                self.bumps.movie_comment_counter,
                comment_counter_seeds(self.movie_review.key@),
                program_id@,
            );
            lemma_derived_sits(mint, self.mint, self.bumps.mint, mint_seeds(), program_id@);
            lemma_token_account_sits(token_account, self.token_account, self.initializer, self.mint);
        }
        self.seeds_match(movie_comment, movie_comment_counter, mint, token_account)
    }
}

/// Bump seed of the derived account of `UpdateMovieReview`.
#[derive(Clone, Copy, Debug, PartialEq, Eq)]
pub struct UpdateMovieReviewBumps {
    pub movie_review: u8,
}

/// Accounts of a call that updates a review.
#[derive(Clone, Debug, PartialEq, Eq)]
pub struct UpdateMovieReview {
    /// The review. Its seeds are the title and the initializer.
    pub movie_review: Account<MovieAccountState>,
    /// Who calls, signs and pays for storage that grows.
    pub initializer: Address,
    /// Bump seed of the review.
    pub bumps: UpdateMovieReviewBumps,
}

impl UpdateMovieReview {
    /// Whether the review sits at the address, and has the bump seed, that the title with
    /// the bytes `title` and the initializer give under `program_id`.
    pub open spec fn seeds_hold(self, program_id: Seq<u8>, title: Seq<u8>) -> bool {
        sits_at(
            self.movie_review.key,
            self.bumps.movie_review,
            movie_review_seeds(title, self.initializer@),
            program_id,
        )
    }

    /// Whether the review is the account that was derived, with its bump seed.
    pub fn seeds_match(&self, movie_review: Option<(Address, u8)>) -> (res: bool)
        ensures
            res == (movie_review == Some((self.movie_review.key, self.bumps.movie_review))),
    {
        derived_is(movie_review, &self.movie_review.key, self.bumps.movie_review)
    }

    /// Derives the review's address again and compares.
    pub fn check_seeds(&self, program_id: &Address, title: &str) -> (res: bool)
        ensures
            res == self.seeds_hold(program_id@, title.spec_bytes()),
    {
        let movie_review = movie_review_address(program_id, title, &self.initializer);
        proof {
            lemma_derived_sits(
                movie_review,
                self.movie_review.key,
                self.bumps.movie_review,
                movie_review_seeds(title.spec_bytes(), self.initializer@),
                program_id@,
            );
        }
        self.seeds_match(movie_review)
    }
}

/// Bump seed of the derived account of `DeleteMovieReview`.
#[derive(Clone, Copy, Debug, PartialEq, Eq)]
pub struct DeleteMovieReviewBumps {
    pub movie_review: u8,
}

/// Accounts of a call that deletes a review.
#[derive(Clone, Debug, PartialEq, Eq)]
pub struct DeleteMovieReview {
    /// The review. Its seeds are the title and the initializer.
    pub movie_review: Account<MovieAccountState>,
    /// Who calls and signs, and gets the review's deposit back.
    pub initializer: Address,
    /// Bump seed of the review.
    pub bumps: DeleteMovieReviewBumps,
}

impl DeleteMovieReview {
    /// Whether the review sits at the address, and has the bump seed, that the title with
    /// the bytes `title` and the initializer give under `program_id`.
    pub open spec fn seeds_hold(self, program_id: Seq<u8>, title: Seq<u8>) -> bool {
        sits_at(
            self.movie_review.key,
            self.bumps.movie_review,
            movie_review_seeds(title, self.initializer@),
            program_id,
        )
    }

    /// Whether the review is the account that was derived, with its bump seed.
    pub fn seeds_match(&self, movie_review: Option<(Address, u8)>) -> (res: bool)
        ensures
            res == (movie_review == Some((self.movie_review.key, self.bumps.movie_review))),
    {
        derived_is(movie_review, &self.movie_review.key, self.bumps.movie_review)
    }

    /// Derives the review's address again and compares.
    pub fn check_seeds(&self, program_id: &Address, title: &str) -> (res: bool)
        ensures
            res == self.seeds_hold(program_id@, title.spec_bytes()),
    {
        let movie_review = movie_review_address(program_id, title, &self.initializer);
        proof {
            lemma_derived_sits(
                movie_review,
                self.movie_review.key,
                self.bumps.movie_review,
                movie_review_seeds(title.spec_bytes(), self.initializer@),
                program_id@,
            );
        }
        self.seeds_match(movie_review)
    }
}

/// Bump seed of the derived account of `InitializeMint`.
#[derive(Clone, Copy, Debug, PartialEq, Eq)]
pub struct InitializeMintBumps {
    pub mint: u8,
}

/// Accounts of the call that sets up the reward token's mint.
#[derive(Clone, Debug, PartialEq, Eq)]
pub struct InitializeMint {
    /// The mint. Its seed is `MINT_SEED`, so a program has one. The token program lays out
    /// its storage.
    pub mint: Account<Mint>,
    /// Who calls, signs and pays for the storage.
    pub user: Address,
    /// Bump seed of the mint.
    pub bumps: InitializeMintBumps,
}

impl InitializeMint {
    /// Whether the mint sits at the address, and has the bump seed, that `MINT_SEED` gives
    /// under `program_id`.
    pub open spec fn seeds_hold(self, program_id: Seq<u8>) -> bool {
        sits_at(self.mint.key, self.bumps.mint, mint_seeds(), program_id)
    }

    /// Whether the mint is the account that was derived, with its bump seed.
    pub fn seeds_match(&self, mint: Option<(Address, u8)>) -> (res: bool)
        ensures
            res == (mint == Some((self.mint.key, self.bumps.mint))),
    {
        derived_is(mint, &self.mint.key, self.bumps.mint)
    }

    /// Derives the mint's address again and compares.
    pub fn check_seeds(&self, program_id: &Address) -> (res: bool)
        ensures
            res == self.seeds_hold(program_id@),
    {
        let mint = mint_address(program_id);
        proof {
            lemma_derived_sits(mint, self.mint.key, self.bumps.mint, mint_seeds(), program_id@);
        }
        self.seeds_match(mint)
    }
}

} // verus!
