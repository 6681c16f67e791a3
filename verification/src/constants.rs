//! Sizes and bounds of the program.

use vstd::prelude::*;

verus! {

/// Bytes of the type tag that starts every record.
pub const ANCHOR_DISCRIMINATOR: usize = 8;

/// Bytes of a stored address.
pub const PUBKEY_SIZE: usize = 32;

/// Bytes of a stored `u8`.
pub const U8_SIZE: usize = 1;

/// Bytes of a stored `u64`.
pub const U64_SIZE: usize = 8;

/// Bytes of the length that precedes a stored string.
pub const STRING_LENGTH_PREFIX: usize = 4;

/// Lowest rating of a review.
pub const MIN_RATING: u8 = 1;

/// Highest rating of a review.
pub const MAX_RATING: u8 = 5;

/// Most bytes a title may have.
pub const MAX_TITLE_LENGTH: usize = 20;

/// Most bytes a description may have.
pub const MAX_DESCRIPTION_LENGTH: usize = 50;

/// Most bytes a comment may have.
pub const MAX_COMMENT_LENGTH: usize = 60;

/// Decimals of the reward token.
pub const MINT_DECIMALS: u8 = 6;

/// Base units of the reward token minted for a new review.
pub const REVIEW_REWARD: u64 = 98;

/// Base units of the reward token minted for a new comment.
pub const COMMENT_REWARD: u64 = 52;

/// Seed of the token mint's address: the bytes of `mint`.
pub const MINT_SEED: [u8; 4] = [109, 105, 110, 116];

/// First seed of a comment counter's address: the bytes of `counter`.
pub const COUNTER_SEED: [u8; 7] = [99, 111, 117, 110, 116, 101, 114];

/// Address of this program.
pub const ID: [u8; 32] = [
    199, 209, 85, 231, 169, 241, 194, 219, 56, 89, 122, 190, 151, 136, 9, 148,
    230, 98, 231, 240, 132, 170, 119, 184, 63, 201, 188, 35, 87, 127, 51, 141,
];

/// Address of the token program.
pub const TOKEN_PROGRAM_ID: [u8; 32] = [
    6, 221, 246, 225, 215, 101, 161, 147, 217, 203, 225, 70, 206, 235, 121, 172,
    28, 180, 133, 237, 95, 91, 55, 145, 58, 140, 245, 133, 126, 255, 0, 169,
];

/// Address of the associated token account program.
pub const ASSOCIATED_TOKEN_PROGRAM_ID: [u8; 32] = [
    140, 151, 37, 143, 78, 36, 137, 241, 187, 61, 16, 41, 20, 142, 13, 131,
    11, 90, 19, 153, 218, 255, 16, 132, 4, 142, 123, 216, 219, 233, 248, 89,
];

} // verus!
