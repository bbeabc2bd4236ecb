//! Likes and follows: edges that exist at most once and move two counters.

use crate::address::{lemma_address_of_bytes, Address};
use crate::counter::{checked_paired_step, checked_step, paired, stepped, Delta};
use crate::errors::{LedgerError, SpotifyError};
use crate::ledger::{commits, Ledger, LedgerState};
use crate::namespace::{
    address_of, count_part, find_address, key1, key2, key3, timestamp_bytes, timestamp_part,
    Namespace,
};
use crate::state::social::MAX_METADATA_LEN;
use crate::state::{
    ActivityFeed, ActivityFeedView, TrackLike, TrackView, UserFollow, UserProfileView, UserStats,
};
use crate::text::{byte_len, text_len};
use vstd::bytes::*;
use vstd::prelude::*;
use vstd::string::*;

verus! {

/// The key of the activity entry that `user` writes at `now` when `nonce`
/// entries have been written before.
pub open spec fn activity_key(user: Seq<u8>, now: i64, nonce: u64) -> Seq<Seq<u8>> {
    seq![user, timestamp_bytes(now), spec_u64_to_le_bytes(nonce)]
}

/// Derives the address of the next activity entry of `user`.
pub fn activity_address(program_id: &Address, user: &Address, now: i64, nonce: u64) -> (r: Option<
    Address,
>)
    ensures
        match r {
            Some(a) => address_of(
                program_id@,
                Namespace::ActivityFeed,
                activity_key(user@, now, nonce),
            ) == Some(a@),
            None => address_of(program_id@, Namespace::ActivityFeed, activity_key(user@, now, nonce))
                is None,
        },
{
    find_address(
        program_id,
        Namespace::ActivityFeed,
        key3(user.to_seed(), timestamp_part(now), count_part(nonce)),
    )
}

/// The records that liking a track touches.
#[derive(Clone, Copy, Debug, PartialEq, Eq)]
pub struct LikeTrack {
    /// The track liked.
    pub track: Address,
    /// Where the like will live.
    pub track_like: Address,
    /// The statistics of the user who likes.
    pub user_stats: Address,
    /// The statistics of the track's creator.
    pub creator_stats: Address,
    /// Where the activity entry will live.
    pub activity_feed: Address,
    /// The user who likes.
    pub user: Address,
}

impl LikeTrack {
    /// The addresses are those of the like of `user` for `track`, of the
    /// statistics of `user` and of `creator`, and of `user`'s activity entry
    /// for `now` and `nonce`.
    pub open spec fn resolves(
        self,
        program_id: Seq<u8>,
        user: Seq<u8>,
        track: Seq<u8>,
        creator: Seq<u8>,
        now: i64,
        nonce: u64,
    ) -> bool {
        &&& self.user@ == user
        &&& self.track@ == track
        &&& address_of(program_id, Namespace::TrackLike, seq![user, track]) == Some(
            self.track_like@,
        )
        &&& address_of(program_id, Namespace::UserStats, seq![user]) == Some(self.user_stats@)
        &&& address_of(program_id, Namespace::UserStats, seq![creator]) == Some(
            self.creator_stats@,
        )
        &&& address_of(program_id, Namespace::ActivityFeed, activity_key(user, now, nonce))
            == Some(self.activity_feed@)
    }

    /// The records for this key, where every one of them has an address.
    pub open spec fn resolution(
        program_id: Seq<u8>,
        user: Seq<u8>,
        track: Seq<u8>,
        creator: Seq<u8>,
        now: i64,
        nonce: u64,
    ) -> Option<LikeTrack> {
        if exists|ctx: LikeTrack| ctx.resolves(program_id, user, track, creator, now, nonce) {
            Some(choose|ctx: LikeTrack| ctx.resolves(program_id, user, track, creator, now, nonce))
        } else {
            None
        }
    }

    /// A key has one resolution.
    pub proof fn lemma_resolution(
        self,
        program_id: Seq<u8>,
        user: Seq<u8>,
        track: Seq<u8>,
        creator: Seq<u8>,
        now: i64,
        nonce: u64,
    )
        requires
            self.resolves(program_id, user, track, creator, now, nonce),
        ensures
            Self::resolution(program_id, user, track, creator, now, nonce) == Some(self),
    {
        let other = choose|ctx: LikeTrack|
            ctx.resolves(program_id, user, track, creator, now, nonce);
        lemma_address_of_bytes(other.track, self.track);
        lemma_address_of_bytes(other.track_like, self.track_like);
        lemma_address_of_bytes(other.user_stats, self.user_stats);
        lemma_address_of_bytes(other.creator_stats, self.creator_stats);
        lemma_address_of_bytes(other.activity_feed, self.activity_feed);
        lemma_address_of_bytes(other.user, self.user);
    }

    /// Derives the addresses.
    pub fn resolve(
        program_id: &Address,
        user: &Address,
        track: &Address,
        creator: &Address,
        now: i64,
        nonce: u64,
    ) -> (r: Option<LikeTrack>)
        ensures
            r == Self::resolution(program_id@, user@, track@, creator@, now, nonce),
            match r {
                Some(ctx) => ctx.resolves(program_id@, user@, track@, creator@, now, nonce),
                None => address_of(program_id@, Namespace::TrackLike, seq![user@, track@]) is None
                    || address_of(program_id@, Namespace::UserStats, seq![user@]) is None
                    || address_of(program_id@, Namespace::UserStats, seq![creator@]) is None
                    || address_of(
                    program_id@,
                    Namespace::ActivityFeed,
                    activity_key(user@, now, nonce),
                ) is None,
            },
    {
        let track_like = find_address(
            program_id,
            Namespace::TrackLike,
            key2(user.to_seed(), track.to_seed()),
        )?;
        let user_stats = find_address(program_id, Namespace::UserStats, key1(user.to_seed()))?;
        let creator_stats = find_address(
            program_id,
            Namespace::UserStats,
            key1(creator.to_seed()),
        )?;
        let activity_feed = activity_address(program_id, user, now, nonce)?;
        let ctx = LikeTrack {
            track: *track,
            track_like,
            user_stats,
            creator_stats,
            activity_feed,
            user: *user,
        };
        proof {
            ctx.lemma_resolution(program_id@, user@, track@, creator@, now, nonce);
        }
        Some(ctx)
    }
}

/// The metadata of the activity entry for a like of a track with this title.
pub open spec fn like_metadata(title: Seq<char>) -> Seq<char> {
    "Liked track: "@ + title
}

/// The metadata of the activity entry for a follow of this username.
pub open spec fn follow_metadata(username: Seq<char>) -> Seq<char> {
    "Followed "@ + username
}

/// What a like makes of the ledger.
///
/// The track and both statistics records must exist; the like must not. The
/// like is stored, the track's `likes_count` and the creator's
/// `total_likes_received` rise by one each, the user's `last_active` becomes
/// `now`, and one activity entry is written.
pub open spec fn like_track_step(s: LedgerState, ctx: LikeTrack, now: i64) -> Result<
    LedgerState,
    LedgerError,
> {
    if !s.tracks.contains_key(ctx.track@) || !s.stats.contains_key(ctx.user_stats@)
        || !s.stats.contains_key(ctx.creator_stats@) {
        Err(LedgerError::NotFound)
    } else if s.track_likes.contains_key(ctx.track_like@) {
        Err(LedgerError::Program(SpotifyError::AlreadyLikedTrack))
    } else if s.feed.contains_key(ctx.activity_feed@) {
        Err(LedgerError::AlreadyExists)
    } else if byte_len(like_metadata(s.tracks[ctx.track@].title)) > MAX_METADATA_LEN {
        Err(LedgerError::FieldTooLong)
    } else {
        let track = s.tracks[ctx.track@];
        let active = s.stats.insert(
            ctx.user_stats@,
            UserStats { last_active: now, ..s.stats[ctx.user_stats@] },
        );
        let creator = active[ctx.creator_stats@];
        match (
            paired(track.likes_count, creator.total_likes_received, Delta::Increment),
            stepped(s.feed_nonce, Delta::Increment),
        ) {
            (Ok((likes, received)), Ok(nonce)) => Ok(
                LedgerState {
                    track_likes: s.track_likes.insert(
                        ctx.track_like@,
                        TrackLike { user: ctx.user, track: ctx.track, created_at: now },
                    ),
                    tracks: s.tracks.insert(ctx.track@, TrackView { likes_count: likes, ..track }),
                    stats: active.insert(
                        ctx.creator_stats@,
                        UserStats { total_likes_received: received, ..creator },
                    ),
                    feed: s.feed.insert(
                        ctx.activity_feed@,
                        ActivityFeedView {
                            user: ctx.user,
                            activity_type: ActivityFeed::ACTIVITY_TRACK_LIKED,
                            target: ctx.track,
                            metadata: like_metadata(track.title),
                            created_at: now,
                        },
                    ),
                    feed_nonce: nonce,
                    ..s
                },
            ),
            (Err(e), _) => Err(LedgerError::Program(e)),
            (_, Err(e)) => Err(LedgerError::Program(e)),
        }
    }
}

/// Stores the like of `ctx.track` by `ctx.user`.
pub fn like_track(ledger: &mut Ledger, ctx: &LikeTrack, now: i64) -> (r: Result<(), LedgerError>)
    requires
        old(ledger).wf(),
    ensures
        final(ledger).wf(),
        commits(old(ledger)@, like_track_step(old(ledger)@, *ctx, now), r, final(ledger)@),
        old(ledger)@.valid() ==> final(ledger)@.valid(),
{
    let (likes_before, metadata) = match ledger.tracks.get(&ctx.track) {
        Some(t) => (t.likes_count, String::from_str("Liked track: ").concat(t.title.as_str())),
        None => {
            return Err(LedgerError::NotFound);
        },
    };
    let user = match ledger.stats.get(&ctx.user_stats) {
        Some(s) => *s,
        None => {
            return Err(LedgerError::NotFound);
        },
    };
    let creator_before = match ledger.stats.get(&ctx.creator_stats) {
        Some(s) => *s,
        None => {
            return Err(LedgerError::NotFound);
        },
    };
    if ledger.track_likes.contains(&ctx.track_like) {
        return Err(LedgerError::Program(SpotifyError::AlreadyLikedTrack));
    }
    if ledger.feed.contains(&ctx.activity_feed) {
        return Err(LedgerError::AlreadyExists);
    }
    if text_len(&metadata) > MAX_METADATA_LEN {
        return Err(LedgerError::FieldTooLong);
    }
    let user = UserStats { last_active: now, ..user };
    let creator = if ctx.creator_stats.same(&ctx.user_stats) {
        user
    } else {
        creator_before
    };
    let (likes, received) = match checked_paired_step(likes_before, creator.total_likes_received, Delta::Increment) {
        Ok(pair) => pair,
        Err(e) => {
            return Err(LedgerError::Program(e));
        },
    };
    let nonce = match checked_step(ledger.feed_nonce, Delta::Increment) {
        Ok(n) => n,
        Err(e) => {
            return Err(LedgerError::Program(e));
        },
    };
    ledger.track_likes.put(
        ctx.track_like,
        TrackLike { user: ctx.user, track: ctx.track, created_at: now },
    );
    let mut track = ledger.tracks.take(&ctx.track).unwrap();
    track.likes_count = likes;
    ledger.tracks.put(ctx.track, track);
    ledger.stats.put(ctx.user_stats, user);
    ledger.stats.put(ctx.creator_stats, UserStats { total_likes_received: received, ..creator });
    ledger.feed.put(
        ctx.activity_feed,
        ActivityFeed {
            user: ctx.user,
            activity_type: ActivityFeed::ACTIVITY_TRACK_LIKED,
            target: ctx.track,
            metadata,
            created_at: now,
        },
    );
    ledger.feed_nonce = nonce;
    proof {
        let s = old(ledger)@;
        assert(ledger@.tracks =~= s.tracks.insert(
            ctx.track@,
            TrackView { likes_count: likes, ..s.tracks[ctx.track@] },
        ));
    }
    Ok(())
}

/// The records that following a user touches.
#[derive(Clone, Copy, Debug, PartialEq, Eq)]
pub struct FollowUser {
    /// The profile of the user who follows.
    pub follower_profile: Address,
    /// The profile of the user followed.
    pub following_profile: Address,
    /// Where the follow will live.
    pub user_follow: Address,
    /// Where the activity entry will live.
    pub activity_feed: Address,
    /// The user who follows.
    pub follower: Address,
}

impl FollowUser {
    /// The addresses are those of `follower`'s profile, of the follow of
    /// `following_profile` by `follower`, and of `follower`'s activity entry
    /// for `now` and `nonce`.
    pub open spec fn resolves(
        self,
        program_id: Seq<u8>,
        follower: Seq<u8>,
        following_profile: Seq<u8>,
        now: i64,
        nonce: u64,
    ) -> bool {
        &&& self.follower@ == follower
        &&& self.following_profile@ == following_profile
        &&& address_of(program_id, Namespace::UserProfile, seq![follower]) == Some(
            self.follower_profile@,
        )
        &&& address_of(program_id, Namespace::UserFollow, seq![follower, following_profile])
            == Some(self.user_follow@)
        &&& address_of(program_id, Namespace::ActivityFeed, activity_key(follower, now, nonce))
            == Some(self.activity_feed@)
    }

    /// The records for this key, where every one of them has an address.
    pub open spec fn resolution(
        program_id: Seq<u8>,
        follower: Seq<u8>,
        following_profile: Seq<u8>,
        now: i64,
        nonce: u64,
    ) -> Option<FollowUser> {
        if exists|ctx: FollowUser|
            ctx.resolves(program_id, follower, following_profile, now, nonce) {
            Some(
                choose|ctx: FollowUser|
                    ctx.resolves(program_id, follower, following_profile, now, nonce),
            )
        } else {
            None
        }
    }

    /// A key has one resolution.
    pub proof fn lemma_resolution(
        self,
        program_id: Seq<u8>,
        follower: Seq<u8>,
        following_profile: Seq<u8>,
        now: i64,
        nonce: u64,
    )
        requires
            self.resolves(program_id, follower, following_profile, now, nonce),
        ensures
            Self::resolution(program_id, follower, following_profile, now, nonce) == Some(self),
    {
        let other = choose|ctx: FollowUser|
            ctx.resolves(program_id, follower, following_profile, now, nonce);
        lemma_address_of_bytes(other.follower_profile, self.follower_profile);
        lemma_address_of_bytes(other.following_profile, self.following_profile);
        lemma_address_of_bytes(other.user_follow, self.user_follow);
        lemma_address_of_bytes(other.activity_feed, self.activity_feed);
        lemma_address_of_bytes(other.follower, self.follower);
    }

    /// Derives the addresses.
    pub fn resolve(
        program_id: &Address,
        follower: &Address,
        following_profile: &Address,
        now: i64,
        nonce: u64,
    ) -> (r: Option<FollowUser>)
        ensures
            r == Self::resolution(program_id@, follower@, following_profile@, now, nonce),
            match r {
                Some(ctx) => ctx.resolves(program_id@, follower@, following_profile@, now, nonce),
                None => address_of(program_id@, Namespace::UserProfile, seq![follower@]) is None
                    || address_of(
                    program_id@,
                    Namespace::UserFollow,
                    seq![follower@, following_profile@],
                ) is None || address_of(
                    program_id@,
                    Namespace::ActivityFeed,
                    activity_key(follower@, now, nonce),
                ) is None,
            },
    {
        let follower_profile = find_address(
            program_id,
            Namespace::UserProfile,
            key1(follower.to_seed()),
        )?;
        let user_follow = find_address(
            program_id,
            Namespace::UserFollow,
            key2(follower.to_seed(), following_profile.to_seed()),
        )?;
        let activity_feed = activity_address(program_id, follower, now, nonce)?;
        let ctx = FollowUser {
            follower_profile,
            following_profile: *following_profile,
            user_follow,
            activity_feed,
            follower: *follower,
        };
        proof {
            ctx.lemma_resolution(program_id@, follower@, following_profile@, now, nonce);
        }
        Some(ctx)
    }
}

/// What a follow makes of the ledger.
///
/// Nobody follows themselves: that is refused before anything is read. Both
/// profiles must exist; the follow must not. The follow is stored, the
/// followed profile's `followers_count` and the follower's `following_count`
/// rise by one each, and one activity entry is written.
pub open spec fn follow_user_step(s: LedgerState, ctx: FollowUser, now: i64) -> Result<
    LedgerState,
    LedgerError,
> {
    if ctx.follower_profile@ == ctx.following_profile@ {
        Err(LedgerError::Program(SpotifyError::CannotFollowSelf))
    } else if !s.profiles.contains_key(ctx.follower_profile@) || !s.profiles.contains_key(
        ctx.following_profile@,
    ) {
        Err(LedgerError::NotFound)
    } else if s.follows.contains_key(ctx.user_follow@) {
        Err(LedgerError::Program(SpotifyError::AlreadyFollowing))
    } else if s.feed.contains_key(ctx.activity_feed@) {
        Err(LedgerError::AlreadyExists)
    } else if byte_len(follow_metadata(s.profiles[ctx.following_profile@].username))
        > MAX_METADATA_LEN {
        Err(LedgerError::FieldTooLong)
    } else {
        let follower = s.profiles[ctx.follower_profile@];
        let following = s.profiles[ctx.following_profile@];
        match (
            paired(following.followers_count, follower.following_count, Delta::Increment),
            stepped(s.feed_nonce, Delta::Increment),
        ) {
            (Ok((followers, followings)), Ok(nonce)) => Ok(
                LedgerState {
                    follows: s.follows.insert(
                        ctx.user_follow@,
                        UserFollow {
                            follower: ctx.follower_profile,
                            following: ctx.following_profile,
                            created_at: now,
                        },
                    ),
                    profiles: s.profiles.insert(
                        ctx.following_profile@,
                        UserProfileView { followers_count: followers, ..following },
                    ).insert(
                        ctx.follower_profile@,
                        UserProfileView { following_count: followings, ..follower },
                    ),
                    feed: s.feed.insert(
                        ctx.activity_feed@,
                        ActivityFeedView {
                            user: ctx.follower,
                            activity_type: ActivityFeed::ACTIVITY_USER_FOLLOWED,
                            target: ctx.following_profile,
                            metadata: follow_metadata(following.username),
                            created_at: now,
                        },
                    ),
                    feed_nonce: nonce,
                    ..s
                },
            ),
            (Err(e), _) => Err(LedgerError::Program(e)),
            (_, Err(e)) => Err(LedgerError::Program(e)),
        }
    }
}

/// Stores the follow of `ctx.following_profile` by `ctx.follower_profile`.
pub fn follow_user(ledger: &mut Ledger, ctx: &FollowUser, now: i64) -> (r: Result<(), LedgerError>)
    requires
        old(ledger).wf(),
    ensures
        final(ledger).wf(),
        commits(old(ledger)@, follow_user_step(old(ledger)@, *ctx, now), r, final(ledger)@),
        old(ledger)@.valid() ==> final(ledger)@.valid(),
{
    if ctx.follower_profile.same(&ctx.following_profile) {
        return Err(LedgerError::Program(SpotifyError::CannotFollowSelf));
    }
    let followings_before = match ledger.profiles.get(&ctx.follower_profile) {
        Some(p) => p.following_count,
        None => {
            return Err(LedgerError::NotFound);
        },
    };
    let (followers_before, metadata) = match ledger.profiles.get(&ctx.following_profile) {
        Some(p) => (p.followers_count, String::from_str("Followed ").concat(p.username.as_str())),
        None => {
            return Err(LedgerError::NotFound);
        },
    };
    if ledger.follows.contains(&ctx.user_follow) {
        return Err(LedgerError::Program(SpotifyError::AlreadyFollowing));
    }
    if ledger.feed.contains(&ctx.activity_feed) {
        return Err(LedgerError::AlreadyExists);
    }
    if text_len(&metadata) > MAX_METADATA_LEN {
        return Err(LedgerError::FieldTooLong);
    }
    let (followers, followings) = match checked_paired_step(followers_before, followings_before, Delta::Increment) {
        Ok(pair) => pair,
        Err(e) => {
            return Err(LedgerError::Program(e));
        },
    };
    let nonce = match checked_step(ledger.feed_nonce, Delta::Increment) {
        Ok(n) => n,
        Err(e) => {
            return Err(LedgerError::Program(e));
        },
    };
    ledger.follows.put(
        ctx.user_follow,
        UserFollow {
            follower: ctx.follower_profile,
            following: ctx.following_profile,
            created_at: now,
        },
    );
    let mut following = ledger.profiles.take(&ctx.following_profile).unwrap();
    following.followers_count = followers;
    ledger.profiles.put(ctx.following_profile, following);
    let mut follower = ledger.profiles.take(&ctx.follower_profile).unwrap();
    follower.following_count = followings;
    ledger.profiles.put(ctx.follower_profile, follower);
    ledger.feed.put(
        ctx.activity_feed,
        ActivityFeed {
            user: ctx.follower,
            activity_type: ActivityFeed::ACTIVITY_USER_FOLLOWED,
            target: ctx.following_profile,
            metadata,
            created_at: now,
        },
    );
    ledger.feed_nonce = nonce;
    proof {
        let s = old(ledger)@;
        assert(ledger@.profiles =~= s.profiles.insert(
            ctx.following_profile@,
            UserProfileView { followers_count: followers, ..s.profiles[ctx.following_profile@] },
        ).insert(
            ctx.follower_profile@,
            UserProfileView { following_count: followings, ..s.profiles[ctx.follower_profile@] },
        ));
    }
    Ok(())
}

/// The records that taking back a like touches.
#[derive(Clone, Copy, Debug, PartialEq, Eq)]
pub struct UnlikeTrack {
    /// The track that loses the like.
    pub track: Address,
    /// Where the like lives.
    pub track_like: Address,
    /// The statistics of the user who takes the like back.
    pub user_stats: Address,
    /// The statistics of the track's creator.
    pub creator_stats: Address,
    /// The user who takes the like back.
    pub user: Address,
}

impl UnlikeTrack {
    /// The addresses are those of the like of `user` for `track` and of the
    /// statistics of `user` and of `creator`.
    pub open spec fn resolves(
        self,
        program_id: Seq<u8>,
        user: Seq<u8>,
        track: Seq<u8>,
        creator: Seq<u8>,
    ) -> bool {
        &&& self.user@ == user
        &&& self.track@ == track
        &&& address_of(program_id, Namespace::TrackLike, seq![user, track]) == Some(
            self.track_like@,
        )
        &&& address_of(program_id, Namespace::UserStats, seq![user]) == Some(self.user_stats@)
        &&& address_of(program_id, Namespace::UserStats, seq![creator]) == Some(
            self.creator_stats@,
        )
    }

    /// The records for this key, where every one of them has an address.
    pub open spec fn resolution(
        program_id: Seq<u8>,
        user: Seq<u8>,
        track: Seq<u8>,
        creator: Seq<u8>,
    ) -> Option<UnlikeTrack> {
        if exists|ctx: UnlikeTrack| ctx.resolves(program_id, user, track, creator) {
            Some(choose|ctx: UnlikeTrack| ctx.resolves(program_id, user, track, creator))
        } else {
            None
        }
    }

    /// A key has one resolution.
    pub proof fn lemma_resolution(
        self,
        program_id: Seq<u8>,
        user: Seq<u8>,
        track: Seq<u8>,
        creator: Seq<u8>,
    )
        requires
            self.resolves(program_id, user, track, creator),
        ensures
            Self::resolution(program_id, user, track, creator) == Some(self),
    {
        let other = choose|ctx: UnlikeTrack| ctx.resolves(program_id, user, track, creator);
        lemma_address_of_bytes(other.track, self.track);
        lemma_address_of_bytes(other.track_like, self.track_like);
        lemma_address_of_bytes(other.user_stats, self.user_stats);
        lemma_address_of_bytes(other.creator_stats, self.creator_stats);
        lemma_address_of_bytes(other.user, self.user);
    }

    /// Derives the addresses.
    pub fn resolve(program_id: &Address, user: &Address, track: &Address, creator: &Address) -> (r:
        Option<UnlikeTrack>)
        ensures
            r == Self::resolution(program_id@, user@, track@, creator@),
            match r {
                Some(ctx) => ctx.resolves(program_id@, user@, track@, creator@),
                None => address_of(program_id@, Namespace::TrackLike, seq![user@, track@]) is None
                    || address_of(program_id@, Namespace::UserStats, seq![user@]) is None
                    || address_of(program_id@, Namespace::UserStats, seq![creator@]) is None,
            },
    {
        let track_like = find_address(
            program_id,
            Namespace::TrackLike,
            key2(user.to_seed(), track.to_seed()),
        )?;
        let user_stats = find_address(program_id, Namespace::UserStats, key1(user.to_seed()))?;
        let creator_stats = find_address(
            program_id,
            Namespace::UserStats,
            key1(creator.to_seed()),
        )?;
        let ctx = UnlikeTrack { track: *track, track_like, user_stats, creator_stats, user: *user };
        proof {
            ctx.lemma_resolution(program_id@, user@, track@, creator@);
        }
        Some(ctx)
    }
}

/// What taking back a like makes of the ledger: the inverse of
/// [`like_track_step`] on the like and on both counters.
///
/// The track and both statistics records must exist, and so must the like.
/// The like is removed, the track's `likes_count` and the creator's
/// `total_likes_received` fall by one each, and the user's `last_active`
/// becomes `now`. The activity log keeps what it holds.
pub open spec fn unlike_track_step(s: LedgerState, ctx: UnlikeTrack, now: i64) -> Result<
    LedgerState,
    LedgerError,
> {
    if !s.tracks.contains_key(ctx.track@) || !s.stats.contains_key(ctx.user_stats@)
        || !s.stats.contains_key(ctx.creator_stats@) {
        Err(LedgerError::NotFound)
    } else if !s.track_likes.contains_key(ctx.track_like@) {
        Err(LedgerError::Program(SpotifyError::TrackNotLiked))
    } else {
        let track = s.tracks[ctx.track@];
        let active = s.stats.insert(
            ctx.user_stats@,
            UserStats { last_active: now, ..s.stats[ctx.user_stats@] },
        );
        let creator = active[ctx.creator_stats@];
        match paired(track.likes_count, creator.total_likes_received, Delta::Decrement) {
            Ok((likes, received)) => Ok(
                LedgerState {
                    track_likes: s.track_likes.remove(ctx.track_like@),
                    tracks: s.tracks.insert(ctx.track@, TrackView { likes_count: likes, ..track }),
                    stats: active.insert(
                        ctx.creator_stats@,
                        UserStats { total_likes_received: received, ..creator },
                    ),
                    ..s
                },
            ),
            Err(e) => Err(LedgerError::Program(e)),
        }
    }
}

/// Takes back the like of `ctx.track` by `ctx.user`.
pub fn unlike_track(ledger: &mut Ledger, ctx: &UnlikeTrack, now: i64) -> (r: Result<
    (),
    LedgerError,
>)
    requires
        old(ledger).wf(),
    ensures
        final(ledger).wf(),
        commits(old(ledger)@, unlike_track_step(old(ledger)@, *ctx, now), r, final(ledger)@),
        old(ledger)@.valid() ==> final(ledger)@.valid(),
{
    let likes_before = match ledger.tracks.get(&ctx.track) {
        Some(t) => t.likes_count,
        None => {
            return Err(LedgerError::NotFound);
        },
    };
    let user = match ledger.stats.get(&ctx.user_stats) {
        Some(s) => *s,
        None => {
            return Err(LedgerError::NotFound);
        },
    };
    let creator_before = match ledger.stats.get(&ctx.creator_stats) {
        Some(s) => *s,
        None => {
            return Err(LedgerError::NotFound);
        },
    };
    if !ledger.track_likes.contains(&ctx.track_like) {
        return Err(LedgerError::Program(SpotifyError::TrackNotLiked));
    }
    let user = UserStats { last_active: now, ..user };
    let creator = if ctx.creator_stats.same(&ctx.user_stats) {
        user
    } else {
        creator_before
    };
    let (likes, received) = match checked_paired_step(likes_before, creator.total_likes_received, Delta::Decrement) {
        Ok(pair) => pair,
        Err(e) => {
            return Err(LedgerError::Program(e));
        },
    };
    let _ = ledger.track_likes.take(&ctx.track_like);
    let mut track = ledger.tracks.take(&ctx.track).unwrap();
    track.likes_count = likes;
    ledger.tracks.put(ctx.track, track);
    ledger.stats.put(ctx.user_stats, user);
    ledger.stats.put(ctx.creator_stats, UserStats { total_likes_received: received, ..creator });
    proof {
        let s = old(ledger)@;
        assert(ledger@.tracks =~= s.tracks.insert(
            ctx.track@,
            TrackView { likes_count: likes, ..s.tracks[ctx.track@] },
        ));
    }
    Ok(())
}

/// The records that ending a follow touches.
#[derive(Clone, Copy, Debug, PartialEq, Eq)]
pub struct UnfollowUser {
    /// The profile of the user who stops following.
    pub follower_profile: Address,
    /// The profile of the user no longer followed.
    pub following_profile: Address,
    /// Where the follow lives.
    pub user_follow: Address,
    /// The user who stops following.
    pub follower: Address,
}

impl UnfollowUser {
    /// The addresses are those of `follower`'s profile and of the follow of
    /// `following_profile` by `follower`.
    pub open spec fn resolves(
        self,
        program_id: Seq<u8>,
        follower: Seq<u8>,
        following_profile: Seq<u8>,
    ) -> bool {
        &&& self.follower@ == follower
        &&& self.following_profile@ == following_profile
        &&& address_of(program_id, Namespace::UserProfile, seq![follower]) == Some(
            self.follower_profile@,
        )
        &&& address_of(program_id, Namespace::UserFollow, seq![follower, following_profile])
            == Some(self.user_follow@)
    }

    /// The records for this key, where every one of them has an address.
    pub open spec fn resolution(
        program_id: Seq<u8>,
        follower: Seq<u8>,
        following_profile: Seq<u8>,
    ) -> Option<UnfollowUser> {
        if exists|ctx: UnfollowUser| ctx.resolves(program_id, follower, following_profile) {
            Some(choose|ctx: UnfollowUser| ctx.resolves(program_id, follower, following_profile))
        } else {
            None
        }
    }

    /// A key has one resolution.
    pub proof fn lemma_resolution(
        self,
        program_id: Seq<u8>,
        follower: Seq<u8>,
        following_profile: Seq<u8>,
    )
        requires
            self.resolves(program_id, follower, following_profile),
        ensures
            Self::resolution(program_id, follower, following_profile) == Some(self),
    {
        let other = choose|ctx: UnfollowUser| ctx.resolves(program_id, follower, following_profile);
        lemma_address_of_bytes(other.follower_profile, self.follower_profile);
        lemma_address_of_bytes(other.following_profile, self.following_profile);
        lemma_address_of_bytes(other.user_follow, self.user_follow);
        lemma_address_of_bytes(other.follower, self.follower);
    }

    /// Derives the addresses.
    pub fn resolve(program_id: &Address, follower: &Address, following_profile: &Address) -> (r:
        Option<UnfollowUser>)
        ensures
            r == Self::resolution(program_id@, follower@, following_profile@),
            match r {
                Some(ctx) => ctx.resolves(program_id@, follower@, following_profile@),
                None => address_of(program_id@, Namespace::UserProfile, seq![follower@]) is None
                    || address_of(
                    program_id@,
                    Namespace::UserFollow,
                    seq![follower@, following_profile@],
                ) is None,
            },
    {
        let follower_profile = find_address(
            program_id,
            Namespace::UserProfile,
            key1(follower.to_seed()),
        )?;
        let user_follow = find_address(
            program_id,
            Namespace::UserFollow,
            key2(follower.to_seed(), following_profile.to_seed()),
        )?;
        let ctx = UnfollowUser {
            follower_profile,
            following_profile: *following_profile,
            user_follow,
            follower: *follower,
        };
        proof {
            ctx.lemma_resolution(program_id@, follower@, following_profile@);
        }
        Some(ctx)
    }
}

/// What ending a follow makes of the ledger: the inverse of
/// [`follow_user_step`] on the follow and on both counters.
///
/// Both profiles must exist and differ, and the follow must exist. The
/// follow is removed, the followed profile's `followers_count` and the
/// follower's `following_count` fall by one each.
pub open spec fn unfollow_user_step(s: LedgerState, ctx: UnfollowUser) -> Result<
    LedgerState,
    LedgerError,
> {
    if ctx.follower_profile@ == ctx.following_profile@ {
        Err(LedgerError::Program(SpotifyError::CannotFollowSelf))
    } else if !s.profiles.contains_key(ctx.follower_profile@) || !s.profiles.contains_key(
        ctx.following_profile@,
    ) {
        Err(LedgerError::NotFound)
    } else if !s.follows.contains_key(ctx.user_follow@) {
        Err(LedgerError::Program(SpotifyError::NotFollowing))
    } else {
        let follower = s.profiles[ctx.follower_profile@];
        let following = s.profiles[ctx.following_profile@];
        match paired(following.followers_count, follower.following_count, Delta::Decrement) {
            Ok((followers, followings)) => Ok(
                LedgerState {
                    follows: s.follows.remove(ctx.user_follow@),
                    profiles: s.profiles.insert(
                        ctx.following_profile@,
                        UserProfileView { followers_count: followers, ..following },
                    ).insert(
                        ctx.follower_profile@,
                        UserProfileView { following_count: followings, ..follower },
                    ),
                    ..s
                },
            ),
            Err(e) => Err(LedgerError::Program(e)),
        }
    }
}

/// Ends the follow of `ctx.following_profile` by `ctx.follower_profile`.
pub fn unfollow_user(ledger: &mut Ledger, ctx: &UnfollowUser) -> (r: Result<(), LedgerError>)
    requires
        old(ledger).wf(),
    ensures
        final(ledger).wf(),
        commits(old(ledger)@, unfollow_user_step(old(ledger)@, *ctx), r, final(ledger)@),
        old(ledger)@.valid() ==> final(ledger)@.valid(),
{
    if ctx.follower_profile.same(&ctx.following_profile) {
        return Err(LedgerError::Program(SpotifyError::CannotFollowSelf));
    }
    let followings_before = match ledger.profiles.get(&ctx.follower_profile) {
        Some(p) => p.following_count,
        None => {
            return Err(LedgerError::NotFound);
        },
    };
    let followers_before = match ledger.profiles.get(&ctx.following_profile) {
        Some(p) => p.followers_count,
        None => {
            return Err(LedgerError::NotFound);
        },
    };
    if !ledger.follows.contains(&ctx.user_follow) {
        return Err(LedgerError::Program(SpotifyError::NotFollowing));
    }
    let (followers, followings) = match checked_paired_step(followers_before, followings_before, Delta::Decrement) {
        Ok(pair) => pair,
        Err(e) => {
            return Err(LedgerError::Program(e));
        },
    };
    let _ = ledger.follows.take(&ctx.user_follow);
    let mut following = ledger.profiles.take(&ctx.following_profile).unwrap();
    following.followers_count = followers;
    ledger.profiles.put(ctx.following_profile, following);
    let mut follower = ledger.profiles.take(&ctx.follower_profile).unwrap();
    follower.following_count = followings;
    ledger.profiles.put(ctx.follower_profile, follower);
    proof {
        let s = old(ledger)@;
        assert(ledger@.profiles =~= s.profiles.insert(
            ctx.following_profile@,
            UserProfileView { followers_count: followers, ..s.profiles[ctx.following_profile@] },
        ).insert(
            ctx.follower_profile@,
            UserProfileView { following_count: followings, ..s.profiles[ctx.follower_profile@] },
        ));
    }
    Ok(())
}

} // verus!
