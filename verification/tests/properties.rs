use movie_review::address::{
    associated_token_address, comment_address, comment_counter_address, id, mint_address,
    movie_review_address,
};
use movie_review::{
    add_comment, add_movie_review, delete_movie_review, update_movie_review, Account, AddComment,
    AddCommentBumps, AddMovieReview, AddMovieReviewBumps, Address, DeleteMovieReview,
    DeleteMovieReviewBumps, InitializeMint, InitializeMintBumps, Mint, MovieAccountState,
    MovieComment, MovieCommentCounter, UpdateMovieReview, UpdateMovieReviewBumps,
};

fn carol() -> Address {
    Address { bytes: [21u8; 32] }
}

fn dave() -> Address {
    Address { bytes: [22u8; 32] }
}

fn accounts_to_create(title: &str, who: Address) -> AddMovieReview {
    let (review, review_bump) = movie_review_address(&id(), title, &who).unwrap();
    let (counter, counter_bump) = comment_counter_address(&id(), &review).unwrap();
    let (mint, mint_bump) = mint_address(&id()).unwrap();
    AddMovieReview {
        movie_review: Account { key: review, lamports: 2_000, space: 0, data: MovieAccountState::empty() },
        initializer: who,
        movie_comment_counter: Account {
            key: counter,
            lamports: 1_000,
            space: 0,
            data: MovieCommentCounter { counter: 0 },
        },
        mint,
        token_account: associated_token_address(&who, &mint).unwrap(),
        bumps: AddMovieReviewBumps {
            movie_review: review_bump,
            movie_comment_counter: counter_bump,
            mint: mint_bump,
        },
    }
}

fn accounts_to_comment(created: &AddMovieReview, counter: &Account<MovieCommentCounter>, who: Address) -> AddComment {
    let (comment, comment_bump) =
        comment_address(&id(), &created.movie_review.key, counter.data.counter).unwrap();
    AddComment {
        movie_comment: Account {
            key: comment,
            lamports: 3_000,
            space: 0,
            data: MovieComment {
                review: Address::zero(),
                commenter: Address::zero(),
                comment: String::new(),
                count: 0,
            },
        },
        movie_review: created.movie_review.clone(),
        movie_comment_counter: counter.clone(),
        mint: created.mint,
        token_account: associated_token_address(&who, &created.mint).unwrap(),
        initializer: who,
        bumps: AddCommentBumps {
            movie_comment: comment_bump,
            movie_comment_counter: created.bumps.movie_comment_counter,
            mint: created.bumps.mint,
        },
    }
}

#[test]
fn storage_is_exact_after_create_and_after_each_update() {
    let mut created = accounts_to_create("Solaris", carol());
    add_movie_review(&mut created, "Solaris".to_string(), "An ocean thinks.".to_string(), 4).unwrap();
    let size = |review: &MovieAccountState| 49 + review.title.len() + review.description.len();
    assert_eq!(created.movie_review.space, size(&created.movie_review.data));
    let mut ctx = UpdateMovieReview {
        movie_review: created.movie_review,
        initializer: carol(),
        bumps: UpdateMovieReviewBumps { movie_review: created.bumps.movie_review },
    };
    for description in ["", "Longer than it was before, by far.", "Short.", "d"] {
        update_movie_review(&mut ctx, "Solaris".to_string(), description.to_string(), 3).unwrap();
        assert_eq!(ctx.movie_review.space, size(&ctx.movie_review.data));
        assert_eq!(ctx.movie_review.space, 49 + 7 + description.len());
    }
}

#[test]
fn comments_are_numbered_from_zero_without_gaps() {
    let mut created = accounts_to_create("Solaris", carol());
    add_movie_review(&mut created, "Solaris".to_string(), "An ocean thinks.".to_string(), 4).unwrap();
    let mut counter = created.movie_comment_counter.clone();
    let mut comment_keys = Vec::new();
    for expected in 0u64..12 {
        let who = if expected % 2 == 0 { carol() } else { dave() };
        let mut ctx = accounts_to_comment(&created, &counter, who);
        assert!(ctx.check_seeds(&id()));
        add_comment(&mut ctx, format!("Comment {}", expected)).unwrap();
        assert_eq!(ctx.movie_comment.data.count, expected);
        assert_eq!(ctx.movie_comment.data.review, created.movie_review.key);
        assert_eq!(ctx.movie_comment.data.commenter, who);
        assert_eq!(ctx.movie_comment_counter.data.counter, expected + 1);
        assert!(!comment_keys.contains(&ctx.movie_comment.key));
        comment_keys.push(ctx.movie_comment.key);
        counter = ctx.movie_comment_counter;
    }
    assert_eq!(counter.data.counter, 12);
}

#[test]
fn rejected_comment_takes_no_number() {
    let mut created = accounts_to_create("Solaris", carol());
    add_movie_review(&mut created, "Solaris".to_string(), "An ocean thinks.".to_string(), 4).unwrap();
    let mut ctx = accounts_to_comment(&created, &created.movie_comment_counter, dave());
    assert!(add_comment(&mut ctx, "c".repeat(61)).is_err());
    assert_eq!(ctx.movie_comment_counter.data.counter, 0);
    add_comment(&mut ctx, "Fine.".to_string()).unwrap();
    assert_eq!(ctx.movie_comment.data.count, 0);
    assert_eq!(ctx.movie_comment_counter.data.counter, 1);
}

#[test]
fn deleted_review_leaves_its_address_for_a_new_one() {
    let mut created = accounts_to_create("Solaris", carol());
    let address = created.movie_review.key;
    add_movie_review(&mut created, "Solaris".to_string(), "An ocean thinks.".to_string(), 4).unwrap();
    let mut deleting = DeleteMovieReview {
        movie_review: created.movie_review.clone(),
        initializer: carol(),
        bumps: DeleteMovieReviewBumps { movie_review: created.bumps.movie_review },
    };
    assert!(deleting.check_seeds(&id(), "Solaris"));
    let close = delete_movie_review(&mut deleting, "Solaris".to_string()).unwrap();
    assert_eq!(close.account, address);
    assert_eq!(close.destination, carol());
    assert_eq!(close.lamports, 2_000);
    assert_eq!(deleting.movie_review.lamports, 0);
    assert_eq!(deleting.movie_review.space, 0);
    assert_eq!(deleting.movie_review.data, MovieAccountState::empty());

    let mut again = accounts_to_create("Solaris", carol());
    assert_eq!(again.movie_review.key, address);
    again.movie_review = deleting.movie_review;
    assert!(again.check_seeds(&id(), "Solaris"));
    add_movie_review(&mut again, "Solaris".to_string(), "Seen again.".to_string(), 5).unwrap();
    assert_eq!(again.movie_review.key, address);
    assert_eq!(again.movie_review.data.description, "Seen again.");
    assert_eq!(again.movie_review.space, 49 + 7 + 11);
}

#[test]
fn delete_leaves_counter_and_comments_alone() {
    let mut created = accounts_to_create("Solaris", carol());
    add_movie_review(&mut created, "Solaris".to_string(), "An ocean thinks.".to_string(), 4).unwrap();
    let mut commenting = accounts_to_comment(&created, &created.movie_comment_counter, dave());
    add_comment(&mut commenting, "Yes.".to_string()).unwrap();
    let counter = commenting.movie_comment_counter.clone();
    let comment = commenting.movie_comment.clone();
    let mut deleting = DeleteMovieReview {
        movie_review: created.movie_review.clone(),
        initializer: carol(),
        bumps: DeleteMovieReviewBumps { movie_review: created.bumps.movie_review },
    };
    delete_movie_review(&mut deleting, "Solaris".to_string()).unwrap();
    assert_eq!(counter.data.counter, 1);
    assert_eq!(comment.data.review, created.movie_review.key);
    assert_eq!(comment_counter_address(&id(), &created.movie_review.key).unwrap().0, counter.key);
}

#[test]
fn rewards_are_fixed_and_go_to_the_caller() {
    let mut created = accounts_to_create("Solaris", carol());
    let reward = add_movie_review(&mut created, "Solaris".to_string(), "An ocean thinks.".to_string(), 4).unwrap();
    assert_eq!(reward.amount, 98);
    assert_eq!(reward.to, associated_token_address(&carol(), &created.mint).unwrap());
    assert_eq!(reward.authority, reward.mint);
    assert_eq!(reward.mint, mint_address(&id()).unwrap().0);
    let mut commenting = accounts_to_comment(&created, &created.movie_comment_counter, dave());
    let reward = add_comment(&mut commenting, "Yes.".to_string()).unwrap();
    assert_eq!(reward.amount, 52);
    assert_eq!(reward.to, associated_token_address(&dave(), &created.mint).unwrap());
    assert_eq!(reward.authority, reward.mint);
}

#[test]
fn rejected_calls_ask_for_no_reward() {
    let mut created = accounts_to_create("Solaris", carol());
    assert!(add_movie_review(&mut created, "Solaris".to_string(), "An ocean thinks.".to_string(), 0).is_err());
    add_movie_review(&mut created, "Solaris".to_string(), "An ocean thinks.".to_string(), 4).unwrap();
    let mut commenting = accounts_to_comment(&created, &created.movie_comment_counter, dave());
    assert!(add_comment(&mut commenting, "c".repeat(61)).is_err());
}

#[test]
fn seeds_of_a_create_hold_only_for_its_own_accounts() {
    let ctx = accounts_to_create("Solaris", carol());
    assert!(ctx.check_seeds(&id(), "Solaris"));
    assert!(!ctx.check_seeds(&id(), "Stalker"));
    assert!(!ctx.check_seeds(&Address { bytes: [1u8; 32] }, "Solaris"));
    let mut wrong = ctx.clone();
    wrong.initializer = dave();
    assert!(!wrong.check_seeds(&id(), "Solaris"));
    let mut wrong = ctx.clone();
    wrong.movie_review.key = dave();
    assert!(!wrong.check_seeds(&id(), "Solaris"));
    let mut wrong = ctx.clone();
    wrong.movie_comment_counter.key = ctx.movie_review.key;
    assert!(!wrong.check_seeds(&id(), "Solaris"));
    let mut wrong = ctx.clone();
    wrong.mint = dave();
    assert!(!wrong.check_seeds(&id(), "Solaris"));
    let mut wrong = ctx.clone();
    wrong.token_account = associated_token_address(&dave(), &ctx.mint).unwrap();
    assert!(!wrong.check_seeds(&id(), "Solaris"));
    let mut wrong = ctx.clone();
    wrong.bumps.movie_review = ctx.bumps.movie_review.wrapping_sub(1);
    assert!(!wrong.check_seeds(&id(), "Solaris"));
    let mut wrong = ctx.clone();
    wrong.bumps.movie_comment_counter = ctx.bumps.movie_comment_counter.wrapping_sub(1);
    assert!(!wrong.check_seeds(&id(), "Solaris"));
    let mut wrong = ctx.clone();
    wrong.bumps.mint = ctx.bumps.mint.wrapping_sub(1);
    assert!(!wrong.check_seeds(&id(), "Solaris"));
    assert!(!ctx.check_seeds(&id(), &"t".repeat(33)));
}

#[test]
fn seeds_of_a_comment_follow_the_counter() {
    let mut created = accounts_to_create("Solaris", carol());
    add_movie_review(&mut created, "Solaris".to_string(), "An ocean thinks.".to_string(), 4).unwrap();
    let mut ctx = accounts_to_comment(&created, &created.movie_comment_counter, dave());
    assert!(ctx.check_seeds(&id()));
    add_comment(&mut ctx, "Yes.".to_string()).unwrap();
    assert!(!ctx.check_seeds(&id()));
    let next = accounts_to_comment(&created, &ctx.movie_comment_counter, dave());
    assert!(next.check_seeds(&id()));
    assert_ne!(next.movie_comment.key, ctx.movie_comment.key);
    let mut wrong = next.clone();
    wrong.movie_comment_counter.key = dave();
    assert!(!wrong.check_seeds(&id()));
    let mut wrong = next.clone();
    wrong.token_account = associated_token_address(&carol(), &next.mint).unwrap();
    assert!(!wrong.check_seeds(&id()));
}

#[test]
fn seeds_of_update_and_delete_are_those_of_the_review() {
    let created = accounts_to_create("Solaris", carol());
    let updating = UpdateMovieReview {
        movie_review: created.movie_review.clone(),
        initializer: carol(),
        bumps: UpdateMovieReviewBumps { movie_review: created.bumps.movie_review },
    };
    assert!(updating.check_seeds(&id(), "Solaris"));
    assert!(!updating.check_seeds(&id(), "Solari"));
    let by_another = UpdateMovieReview { initializer: dave(), ..updating.clone() };
    assert!(!by_another.check_seeds(&id(), "Solaris"));
    let deleting = DeleteMovieReview {
        movie_review: created.movie_review.clone(),
        initializer: carol(),
        bumps: DeleteMovieReviewBumps { movie_review: created.bumps.movie_review },
    };
    assert!(deleting.check_seeds(&id(), "Solaris"));
    assert!(!deleting.check_seeds(&id(), "Stalker"));
    let by_another = DeleteMovieReview { initializer: dave(), ..deleting.clone() };
    assert!(!by_another.check_seeds(&id(), "Solaris"));
}

#[test]
fn seeds_of_the_mint_hold_for_one_address() {
    let (mint, bump) = mint_address(&id()).unwrap();
    let ctx = InitializeMint {
        mint: Account { key: mint, lamports: 0, space: 0, data: Mint { mint_authority: Address::zero(), decimals: 0 } },
        user: carol(),
        bumps: InitializeMintBumps { mint: bump },
    };
    assert!(ctx.check_seeds(&id()));
    assert!(!ctx.check_seeds(&Address { bytes: [1u8; 32] }));
    let mut wrong = ctx.clone();
    wrong.mint.key = carol();
    assert!(!wrong.check_seeds(&id()));
    let mut wrong = ctx.clone();
    wrong.bumps.mint = bump.wrapping_sub(1);
    assert!(!wrong.check_seeds(&id()));
}
