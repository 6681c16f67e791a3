//! Verified core of an on-chain movie review program.
//!
//! The program keeps one review record per title and author, a comment counter beside
//! each review and one record per comment, and rewards reviews and comments with tokens
//! from a mint that signs for itself. Every record sits at an address derived from its
//! seeds, and takes exactly the storage that its fields need.
//!
//! The host runtime stores the accounts, moves the deposits and runs the token program.
//! This crate decides what is written, how much storage it takes, where it sits and what
//! is minted.

pub mod constants;
pub mod error;
pub mod address;
pub mod state;
pub mod accounts;
pub mod instructions;
pub mod laws;

pub use crate::accounts::{
    AddComment, AddCommentBumps, AddMovieReview, AddMovieReviewBumps, DeleteMovieReview,
    DeleteMovieReviewBumps, InitializeMint, InitializeMintBumps, UpdateMovieReview,
    UpdateMovieReviewBumps,
};
pub use crate::address::Address;
pub use crate::error::MovieReviewError;
pub use crate::instructions::{
    add_comment, add_movie_review, delete_movie_review, initialize_token_mint,
    update_movie_review, Close, MintTo,
};
pub use crate::state::{Account, Mint, MovieAccountState, MovieComment, MovieCommentCounter};
