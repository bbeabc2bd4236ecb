//! Comments on tweets and the removal of reactions.
//!
//! A comment lives at the address derived from its author, the hash of its
//! content and the tweet it answers, so one author cannot post the same
//! words twice under one tweet.

use crate::address::{program_address, seeds_view, try_find_program_address, Address};
use crate::counter::{checked_step, Delta};
use crate::digest::{sha256, sha256_digest};
use crate::text::{byte_len, text_bytes, text_len};
use vstd::prelude::*;
use vstd::string::*;

verus! {

/// Longest comment, in bytes.
pub const COMMENT_LENGTH: usize = 500;

/// Why a tweet operation was refused.
#[derive(Clone, Copy, Debug, PartialEq, Eq, Structural)]
pub enum TwitterError {
    CommentTooLong,
    MinLikesReached,
    MinDislikesReached,
    /// The comment's address is not the one its key derives.
    InvalidSeeds,
}

/// The two ways to react to a tweet.
#[derive(Clone, Copy, Debug, PartialEq, Eq, Structural)]
pub enum ReactionType {
    Like,
    Dislike,
}

/// The reaction counters of a tweet.
#[derive(Clone, Copy, Debug, PartialEq, Eq)]
pub struct Tweet {
    pub likes: u64,
    pub dislikes: u64,
}

/// One user's reaction to one tweet.
#[derive(Clone, Copy, Debug, PartialEq, Eq)]
pub struct Reaction {
    pub reaction_author: Address,
    pub parent_tweet: Address,
    pub reaction: ReactionType,
    pub bump: u8,
}

/// A comment on a tweet.
#[derive(Clone, Debug, PartialEq, Eq)]
pub struct Comment {
    pub comment_author: Address,
    pub parent_tweet: Address,
    pub content: String,
    pub bump: u8,
}

/// A comment with its content as a character sequence.
pub struct CommentView {
    pub comment_author: Address,
    pub parent_tweet: Address,
    pub content: Seq<char>,
    pub bump: u8,
}

impl View for Comment {
    type V = CommentView;

    open spec fn view(&self) -> CommentView {
        CommentView {
            comment_author: self.comment_author,
            parent_tweet: self.parent_tweet,
            content: self.content@,
            bump: self.bump,
        }
    }
}

/// The accounts of a new comment.
#[derive(Clone, Copy, Debug, PartialEq, Eq)]
pub struct AddCommentContext {
    pub comment_author: Address,
    /// Where the caller wants the comment stored.
    pub comment: Address,
    pub tweet: Address,
}

/// The accounts of the removal of a reaction.
#[derive(Clone, Copy, Debug, PartialEq, Eq)]
pub struct RemoveReactionContext {
    pub reaction_author: Address,
    pub tweet_reaction: Address,
    pub tweet: Address,
}

/// The seeds of the comment of `author` with this content on `tweet`.
pub open spec fn comment_seeds(author: Seq<u8>, content: Seq<char>, tweet: Seq<u8>) -> Seq<
    Seq<u8>,
> {
    seq!["COMMENT_SEED".spec_bytes(), author, sha256(vstd::utf8::encode_utf8(content)), tweet]
}

/// Builds [`comment_seeds`].
pub fn build_comment_seeds(author: &Address, content: &String, tweet: &Address) -> (seeds: Vec<
    Vec<u8>,
>)
    ensures
        seeds_view(seeds@) == comment_seeds(author@, content@, tweet@),
{
    let mut seeds: Vec<Vec<u8>> = Vec::new();
    seeds.push(text_bytes("COMMENT_SEED"));
    seeds.push(author.to_seed());
    let content_bytes = text_bytes(content.as_str());
    seeds.push(sha256_digest(&content_bytes));
    seeds.push(tweet.to_seed());
    assert(seeds_view(seeds@) =~= comment_seeds(author@, content@, tweet@));
    seeds
}

/// The comment to store, given what the address search found for its key:
/// the address found must be the one the caller named, and its bump is kept.
pub open spec fn comment_at(
    found: Option<(Seq<u8>, u8)>,
    ctx: AddCommentContext,
    content: Seq<char>,
) -> Result<CommentView, TwitterError> {
    match found {
        Some((address, bump)) => if address == ctx.comment@ {
            Ok(
                CommentView {
                    comment_author: ctx.comment_author,
                    parent_tweet: ctx.tweet,
                    content,
                    bump,
                },
            )
        } else {
            Err(TwitterError::InvalidSeeds)
        },
        None => Err(TwitterError::InvalidSeeds),
    }
}

/// The result of a comment as a view.
pub open spec fn comment_result_view(r: Result<Comment, TwitterError>) -> Result<
    CommentView,
    TwitterError,
> {
    match r {
        Ok(c) => Ok(c@),
        Err(e) => Err(e),
    }
}

/// Builds the comment from what the address search found for its key.
pub fn place_comment(found: Option<(Address, u8)>, ctx: &AddCommentContext, content: String) -> (r:
    Result<Comment, TwitterError>)
    ensures
        comment_result_view(r) == comment_at(
            match found {
                Some((a, b)) => Some((a@, b)),
                None => None,
            },
            *ctx,
            content@,
        ),
{
    match found {
        Some((address, bump)) => {
            if address.same(&ctx.comment) {
                Ok(
                    Comment {
                        comment_author: ctx.comment_author,
                        parent_tweet: ctx.tweet,
                        content,
                        bump,
                    },
                )
            } else {
                Err(TwitterError::InvalidSeeds)
            }
        },
        None => Err(TwitterError::InvalidSeeds),
    }
}

/// Builds the comment of `ctx.comment_author` on `ctx.tweet`. The content is
/// bounded first; then `ctx.comment` must be the address that the author,
/// the content's hash and the tweet derive.
pub fn add_comment(program_id: &Address, ctx: &AddCommentContext, comment_content: String) -> (r:
    Result<Comment, TwitterError>)
    ensures
        comment_result_view(r) == if byte_len(comment_content@) > COMMENT_LENGTH {
            Err::<CommentView, TwitterError>(TwitterError::CommentTooLong)
        } else {
            comment_at(
                program_address(
                    comment_seeds(ctx.comment_author@, comment_content@, ctx.tweet@),
                    program_id@,
                ),
                *ctx,
                comment_content@,
            )
        },
{
    if text_len(&comment_content) > COMMENT_LENGTH {
        return Err(TwitterError::CommentTooLong);
    }
    let seeds = build_comment_seeds(&ctx.comment_author, &comment_content, &ctx.tweet);
    let found = try_find_program_address(&seeds, program_id);
    place_comment(found, ctx, comment_content)
}

/// The tweet after one reaction of kind `reaction` is taken back, or the
/// reason it cannot be: no counter falls below zero.
pub open spec fn reaction_removed(tweet: Tweet, reaction: ReactionType) -> Result<
    Tweet,
    TwitterError,
> {
    match reaction {
        ReactionType::Like => if tweet.likes > 0 {
            Ok(Tweet { likes: (tweet.likes - 1) as u64, ..tweet })
        } else {
            Err(TwitterError::MinLikesReached)
        },
        ReactionType::Dislike => if tweet.dislikes > 0 {
            Ok(Tweet { dislikes: (tweet.dislikes - 1) as u64, ..tweet })
        } else {
            Err(TwitterError::MinDislikesReached)
        },
    }
}

/// Takes `reaction` back from `tweet`: the counter of its kind falls by one.
/// A refusal leaves the tweet as it was.
pub fn remove_reaction(tweet: &mut Tweet, reaction: &Reaction) -> (r: Result<(), TwitterError>)
    ensures
        match reaction_removed(*old(tweet), reaction.reaction) {
            Ok(next) => r is Ok && *final(tweet) == next,
            Err(e) => r == Err::<(), TwitterError>(e) && *final(tweet) == *old(tweet),
        },
{
    match reaction.reaction {
        ReactionType::Like => match checked_step(tweet.likes, Delta::Decrement) {
            Ok(n) => {
                tweet.likes = n;
                Ok(())
            },
            Err(_) => Err(TwitterError::MinLikesReached),
        },
        ReactionType::Dislike => match checked_step(tweet.dislikes, Delta::Decrement) {
            Ok(n) => {
                tweet.dislikes = n;
                Ok(())
            },
            Err(_) => Err(TwitterError::MinDislikesReached),
        },
    }
}

} // verus!
