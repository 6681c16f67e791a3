//! The records the program keeps, and the storage each one takes.
//!
//! A record's storage is a fixed header plus the bytes of its strings, never more and
//! never less: too little would corrupt what is read back, too much would waste the
//! deposit of whoever paid for it.

use vstd::prelude::*;
use crate::address::Address;
use crate::constants::{
    ANCHOR_DISCRIMINATOR, MAX_COMMENT_LENGTH, MAX_DESCRIPTION_LENGTH, MAX_RATING, MAX_TITLE_LENGTH,
    MIN_RATING, PUBKEY_SIZE, STRING_LENGTH_PREFIX, U64_SIZE, U8_SIZE,
};

verus! {

/// Bytes that a string takes when stored, its length prefix left out.
pub open spec fn byte_len(text: Seq<char>) -> nat {
    vstd::utf8::encode_utf8(text).len()
}

/// Bytes that `text` takes when stored, its length prefix left out.
pub fn stored_len(text: &str) -> (res: usize)
    ensures
        res == byte_len(text@),
{
    text.as_bytes().len()
}

/// An account as the host hands it to the program: where it is, the deposit it holds, the
/// bytes of storage it has, and the record in it.
#[derive(Clone, Debug, PartialEq, Eq)]
pub struct Account<T> {
    /// Address of the account.
    pub key: Address,
    /// Deposit that the account holds.
    pub lamports: u64,
    /// Bytes of storage that the account has.
    pub space: usize,
    /// The record.
    pub data: T,
}

/// A review of a movie.
#[derive(Clone, Debug, PartialEq, Eq)]
pub struct MovieAccountState {
    /// Who wrote the review.
    pub reviewer: Address,
    /// From `MIN_RATING` to `MAX_RATING`.
    pub rating: u8,
    /// Title of the movie. With the author it is the review's key; it never changes.
    pub title: String,
    /// What the author says of the movie.
    pub description: String,
}

impl MovieAccountState {
    /// Bytes of a review whose strings are empty: the tag, the author, the rating and the
    /// two length prefixes.
    pub const INIT_SPACE: usize = ANCHOR_DISCRIMINATOR + PUBKEY_SIZE + U8_SIZE + STRING_LENGTH_PREFIX
        + STRING_LENGTH_PREFIX;

    /// Bytes of a review with a title and a description of the given lengths.
    pub open spec fn space_for(title_len: nat, description_len: nat) -> nat {
        Self::INIT_SPACE as nat + title_len + description_len
    }

    /// Bytes that this review takes.
    pub open spec fn size(self) -> nat {
        Self::space_for(byte_len(self.title@), byte_len(self.description@))
    }

    /// Whether the rating and the lengths of the strings are within their bounds.
    pub open spec fn is_valid(self) -> bool {
        &&& MIN_RATING <= self.rating <= MAX_RATING
        &&& byte_len(self.title@) <= MAX_TITLE_LENGTH
        &&& byte_len(self.description@) <= MAX_DESCRIPTION_LENGTH
    }

    /// Whether this is the record that an account with no review holds.
    pub open spec fn is_empty(self) -> bool {
        &&& self.reviewer@ == Seq::new(32, |i: int| 0u8)
        &&& self.rating == 0
        &&& self.title@ == Seq::<char>::empty()
        &&& self.description@ == Seq::<char>::empty()
    }

    /// Bytes of a review with a title and a description of the given lengths.
    pub fn space(title_len: usize, description_len: usize) -> (res: usize)
        requires
            Self::space_for(title_len as nat, description_len as nat) <= usize::MAX,
        ensures
            res == Self::space_for(title_len as nat, description_len as nat),
    {
        Self::INIT_SPACE + title_len + description_len
    }

    /// The record that an account with no review holds.
    pub fn empty() -> (res: MovieAccountState)
        ensures
            res.is_empty(),
    {
        MovieAccountState {
            reviewer: Address::zero(),
            rating: 0,
            title: String::new(),
            description: String::new(),
        }
    }
}

/// The number of comments that a review has received so far.
#[derive(Clone, Copy, Debug, PartialEq, Eq)]
pub struct MovieCommentCounter {
    /// Number that the next comment on the review gets.
    pub counter: u64,
}

impl MovieCommentCounter {
    /// Bytes of the counter, its tag left out.
    pub const INIT_SPACE: usize = U64_SIZE;

    /// Bytes that a counter takes.
    pub const SPACE: usize = ANCHOR_DISCRIMINATOR + U64_SIZE;
}

/// A comment on a review.
#[derive(Clone, Debug, PartialEq, Eq)]
pub struct MovieComment {
    /// Address of the review that the comment is on.
    pub review: Address,
    /// Who wrote the comment.
    pub commenter: Address,
    /// What the commenter says.
    pub comment: String,
    /// Number of the comment among those on its review, from 0.
    pub count: u64,
}

impl MovieComment {
    /// Bytes of a comment whose text is empty: the tag, the review, the commenter, the
    /// length prefix and the number.
    pub const INIT_SPACE: usize = ANCHOR_DISCRIMINATOR + PUBKEY_SIZE + PUBKEY_SIZE + STRING_LENGTH_PREFIX
        + U64_SIZE;

    /// Bytes of a comment with a text of the given length.
    pub open spec fn space_for(comment_len: nat) -> nat {
        Self::INIT_SPACE as nat + comment_len
    }

    /// Bytes that this comment takes.
    pub open spec fn size(self) -> nat {
        Self::space_for(byte_len(self.comment@))
    }

    /// Whether the length of the text is within its bound.
    pub open spec fn is_valid(self) -> bool {
        byte_len(self.comment@) <= MAX_COMMENT_LENGTH
    }

    /// Bytes of a comment with a text of the given length.
    pub fn space(comment_len: usize) -> (res: usize)
        requires
            Self::space_for(comment_len as nat) <= usize::MAX,
        ensures
            res == Self::space_for(comment_len as nat),
    {
        Self::INIT_SPACE + comment_len
    }
}

/// Whether the account holds a review within its bounds, in storage of exactly its size.
pub open spec fn holds_review(account: Account<MovieAccountState>) -> bool {
    &&& account.data.is_valid()
    &&& account.space == account.data.size()
}

/// Whether the account holds a counter, in storage of exactly its size.
pub open spec fn holds_counter(account: Account<MovieCommentCounter>) -> bool {
    account.space == MovieCommentCounter::SPACE
}

/// Whether the account holds a comment within its bound, in storage of exactly its size.
pub open spec fn holds_comment(account: Account<MovieComment>) -> bool {
    &&& account.data.is_valid()
    &&& account.space == account.data.size()
}

/// The configuration of the reward token's mint.
#[derive(Clone, Copy, Debug, PartialEq, Eq)]
pub struct Mint {
    /// Who may mint. The program's mint names itself, so that the program signs with the
    /// mint's seeds and no secret key exists.
    pub mint_authority: Address,
    /// Decimals of the token.
    pub decimals: u8,
}

} // verus!
