use movie_review::accounts::{derived_address_is, derived_is};
use movie_review::address::{
    address_of, associated_token_seeds_of, comment_counter_seeds_of, comment_seeds_of,
    mint_seeds_of, mint_signer_seeds_of, movie_review_seeds_of,
};
use movie_review::constants::TOKEN_PROGRAM_ID;
use movie_review::{
    Account, AddComment, AddCommentBumps, AddMovieReview, AddMovieReviewBumps, Address,
    DeleteMovieReview, DeleteMovieReviewBumps, InitializeMint, InitializeMintBumps, Mint,
    MovieAccountState, MovieComment, MovieCommentCounter, UpdateMovieReview, UpdateMovieReviewBumps,
};

fn key(byte: u8) -> Address {
    Address { bytes: [byte; 32] }
}

fn account<T>(key: Address, data: T) -> Account<T> {
    Account { key, lamports: 0, space: 0, data }
}

#[test]
fn review_seeds_are_title_then_author() {
    assert_eq!(movie_review_seeds_of("Dune", &key(7)), vec![vec![68u8, 117, 110, 101], vec![7u8; 32]]);
    assert_eq!(movie_review_seeds_of("", &key(0)), vec![vec![], vec![0u8; 32]]);
    assert_eq!(movie_review_seeds_of("é", &key(1)), vec![vec![0xc3u8, 0xa9], vec![1u8; 32]]);
}

#[test]
fn counter_seeds_are_the_word_then_the_review() {
    assert_eq!(
        comment_counter_seeds_of(&key(9)),
        vec![vec![99u8, 111, 117, 110, 116, 101, 114], vec![9u8; 32]]
    );
}

#[test]
fn comment_seeds_are_the_review_then_the_number_lowest_byte_first() {
    assert_eq!(comment_seeds_of(&key(9), 0), vec![vec![9u8; 32], vec![0u8; 8]]);
    assert_eq!(comment_seeds_of(&key(9), 258), vec![vec![9u8; 32], vec![2u8, 1, 0, 0, 0, 0, 0, 0]]);
    assert_eq!(
        comment_seeds_of(&key(9), 0x0102_0304_0506_0708),
        vec![vec![9u8; 32], vec![8u8, 7, 6, 5, 4, 3, 2, 1]]
    );
    assert_eq!(comment_seeds_of(&key(9), u64::MAX), vec![vec![9u8; 32], vec![255u8; 8]]);
}

#[test]
fn mint_seeds_are_the_word() {
    assert_eq!(mint_seeds_of(), vec![vec![109u8, 105, 110, 116]]);
    assert_eq!(mint_signer_seeds_of(254), vec![vec![109u8, 105, 110, 116], vec![254u8]]);
    assert_eq!(mint_signer_seeds_of(0), vec![vec![109u8, 105, 110, 116], vec![0u8]]);
}

#[test]
fn token_account_seeds_are_wallet_token_program_mint() {
    assert_eq!(
        associated_token_seeds_of(&key(3), &key(4)),
        vec![vec![3u8; 32], TOKEN_PROGRAM_ID.to_vec(), vec![4u8; 32]]
    );
}

#[test]
fn address_of_drops_the_bump() {
    assert_eq!(address_of(Some((key(3), 200))), Some(key(3)));
    assert_eq!(address_of(None), None);
}

#[test]
fn derivation_is_compared_by_address_and_bump() {
    assert!(derived_is(Some((key(3), 200)), &key(3), 200));
    assert!(!derived_is(Some((key(3), 200)), &key(3), 201));
    assert!(!derived_is(Some((key(3), 200)), &key(4), 200));
    assert!(!derived_is(None, &key(3), 200));
    assert!(derived_address_is(Some(key(3)), &key(3)));
    assert!(!derived_address_is(Some(key(3)), &key(4)));
    assert!(!derived_address_is(None, &key(3)));
}

#[test]
fn create_accounts_match_what_was_derived() {
    let ctx = AddMovieReview {
        movie_review: account(key(1), MovieAccountState::empty()),
        initializer: key(2),
        movie_comment_counter: account(key(3), MovieCommentCounter { counter: 0 }),
        mint: key(4),
        token_account: key(5),
        bumps: AddMovieReviewBumps { movie_review: 11, movie_comment_counter: 13, mint: 14 },
    };
    let review = Some((key(1), 11));
    let counter = Some((key(3), 13));
    let mint = Some((key(4), 14));
    let token = Some(key(5));
    assert!(ctx.seeds_match(review, counter, mint, token));
    assert!(!ctx.seeds_match(None, counter, mint, token));
    assert!(!ctx.seeds_match(review, None, mint, token));
    assert!(!ctx.seeds_match(review, counter, None, token));
    assert!(!ctx.seeds_match(review, counter, mint, None));
    assert!(!ctx.seeds_match(Some((key(1), 12)), counter, mint, token));
    assert!(!ctx.seeds_match(Some((key(9), 11)), counter, mint, token));
    assert!(!ctx.seeds_match(review, Some((key(3), 11)), mint, token));
    assert!(!ctx.seeds_match(review, counter, Some((key(5), 14)), token));
    assert!(!ctx.seeds_match(review, counter, mint, Some(key(4))));
    assert!(!ctx.seeds_match(counter, review, mint, token));
}

#[test]
fn comment_accounts_match_what_was_derived() {
    let ctx = AddComment {
        movie_comment: account(
            key(1),
            MovieComment { review: key(0), commenter: key(0), comment: String::new(), count: 0 },
        ),
        movie_review: account(key(6), MovieAccountState::empty()),
        movie_comment_counter: account(key(3), MovieCommentCounter { counter: 5 }),
        mint: key(4),
        token_account: key(5),
        initializer: key(2),
        bumps: AddCommentBumps { movie_comment: 11, movie_comment_counter: 13, mint: 14 },
    };
    let comment = Some((key(1), 11));
    let counter = Some((key(3), 13));
    let mint = Some((key(4), 14));
    let token = Some(key(5));
    assert!(ctx.seeds_match(comment, counter, mint, token));
    assert!(!ctx.seeds_match(Some((key(6), 11)), counter, mint, token));
    assert!(!ctx.seeds_match(comment, Some((key(3), 14)), mint, token));
    assert!(!ctx.seeds_match(comment, counter, Some((key(4), 13)), token));
    assert!(!ctx.seeds_match(comment, counter, mint, Some(key(2))));
    assert!(!ctx.seeds_match(None, None, None, None));
}

#[test]
fn single_accounts_match_what_was_derived() {
    let updating = UpdateMovieReview {
        movie_review: account(key(1), MovieAccountState::empty()),
        initializer: key(2),
        bumps: UpdateMovieReviewBumps { movie_review: 11 },
    };
    assert!(updating.seeds_match(Some((key(1), 11))));
    assert!(!updating.seeds_match(Some((key(2), 11))));
    assert!(!updating.seeds_match(Some((key(1), 10))));
    assert!(!updating.seeds_match(None));
    let deleting = DeleteMovieReview {
        movie_review: account(key(1), MovieAccountState::empty()),
        initializer: key(2),
        bumps: DeleteMovieReviewBumps { movie_review: 11 },
    };
    assert!(deleting.seeds_match(Some((key(1), 11))));
    assert!(!deleting.seeds_match(Some((key(2), 11))));
    assert!(!deleting.seeds_match(Some((key(1), 12))));
    assert!(!deleting.seeds_match(None));
    let minting = InitializeMint {
        mint: account(key(4), Mint { mint_authority: key(0), decimals: 0 }),
        user: key(2),
        bumps: InitializeMintBumps { mint: 14 },
    };
    assert!(minting.seeds_match(Some((key(4), 14))));
    assert!(!minting.seeds_match(Some((key(2), 14))));
    assert!(!minting.seeds_match(Some((key(4), 15))));
    assert!(!minting.seeds_match(None));
}
