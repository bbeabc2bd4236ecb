//! What holds of every ledger across several operations.

use crate::address::Address;
use crate::errors::{LedgerError, SpotifyError};
use crate::instructions::playlist::{
    add_track_to_playlist_step, capability_check, AddTrackToPlaylist,
};
use crate::instructions::search::{store_search_index_step, CreateSearchIndex};
use crate::instructions::social::{
    follow_user_step, like_track_step, unfollow_user_step, unlike_track_step, FollowUser,
    LikeTrack, UnfollowUser, UnlikeTrack,
};
use crate::instructions::track::{create_track_step, play_track_step, CreateTrack, PlayTrack};
use crate::layout::record::{encodable, law_record_size, record_bytes};
use crate::layout::records::{
    law_activity_feed_is_encodable, law_playlist_is_encodable, law_recommendation_is_encodable,
    law_search_index_is_encodable, law_track_is_encodable, law_user_insights_is_encodable,
    law_user_profile_is_encodable,
};
use crate::ledger::LedgerState;
use crate::permission::{law_add_only_collaborator, Capability};
use crate::program::{follow_user_outcome, like_track_outcome};
use crate::state::{
    ActivityFeed, Playlist, PlaylistCollaborator, Recommendation, SearchIndex, Track,
    UserInsights, UserProfile,
};
use vstd::prelude::*;

verus! {

/// A second like of one track by one user is refused as already given, and
/// the track has gained exactly one like: on the records themselves,
/// whatever activity entry the second attempt names.
pub proof fn law_like_once(s: LedgerState, first: LikeTrack, second: LikeTrack, now: i64, later: i64)
    requires
        like_track_step(s, first, now) is Ok,
        second.track@ == first.track@,
        second.track_like@ == first.track_like@,
        second.user_stats@ == first.user_stats@,
        second.creator_stats@ == first.creator_stats@,
    ensures
        like_track_step(like_track_step(s, first, now)->Ok_0, second, later) == Err::<
            LedgerState,
            LedgerError,
        >(LedgerError::Program(SpotifyError::AlreadyLikedTrack)),
        like_track_step(s, first, now)->Ok_0.tracks[first.track@].likes_count
            == s.tracks[first.track@].likes_count + 1,
        like_track_step(s, first, now)->Ok_0.stats[first.creator_stats@].total_likes_received
            == s.stats[first.creator_stats@].total_likes_received + 1,
{
}

/// The same by identities: after `user` has liked the track at `track`, a
/// second like whose records all have addresses is refused as already given.
pub proof fn law_like_twice(s: LedgerState, user: Seq<u8>, track: Seq<u8>, now: i64, later: i64)
    requires
        like_track_outcome(s, user, track, now) is Ok,
        LikeTrack::resolution(
            s.program_id,
            user,
            track,
            s.tracks[track].created_by@,
            later,
            like_track_outcome(s, user, track, now)->Ok_0.feed_nonce,
        ) is Some,
    ensures
        like_track_outcome(like_track_outcome(s, user, track, now)->Ok_0, user, track, later)
            == Err::<LedgerState, LedgerError>(
            LedgerError::Program(SpotifyError::AlreadyLikedTrack),
        ),
        like_track_outcome(s, user, track, now)->Ok_0.tracks[track].likes_count
            == s.tracks[track].likes_count + 1,
{
    let creator = s.tracks[track].created_by@;
    let first = LikeTrack::resolution(s.program_id, user, track, creator, now, s.feed_nonce)->0;
    let s1 = like_track_step(s, first, now)->Ok_0;
    assert(s1.tracks[track].created_by == s.tracks[track].created_by);
    let second = LikeTrack::resolution(s1.program_id, user, track, creator, later, s1.feed_nonce)->0;
    law_like_once(s, first, second, now, later);
}

/// Nobody follows themselves, whatever the ledger holds.
pub proof fn law_no_self_follow(s: LedgerState, ctx: FollowUser, now: i64)
    requires
        ctx.follower_profile@ == ctx.following_profile@,
    ensures
        follow_user_step(s, ctx, now) == Err::<LedgerState, LedgerError>(
            LedgerError::Program(SpotifyError::CannotFollowSelf),
        ),
{
}

/// A follow raises the follower's `following_count` and the followed's
/// `followers_count` by one each and nothing else of either profile; a
/// second follow of the same profile by the same follower is refused.
pub proof fn law_follow_once(
    s: LedgerState,
    first: FollowUser,
    second: FollowUser,
    now: i64,
    later: i64,
)
    requires
        follow_user_step(s, first, now) is Ok,
        second.follower_profile@ == first.follower_profile@,
        second.following_profile@ == first.following_profile@,
        second.user_follow@ == first.user_follow@,
    ensures
        follow_user_step(follow_user_step(s, first, now)->Ok_0, second, later) == Err::<
            LedgerState,
            LedgerError,
        >(LedgerError::Program(SpotifyError::AlreadyFollowing)),
        follow_user_step(s, first, now)->Ok_0.profiles[first.follower_profile@].following_count
            == s.profiles[first.follower_profile@].following_count + 1,
        follow_user_step(s, first, now)->Ok_0.profiles[first.following_profile@].followers_count
            == s.profiles[first.following_profile@].followers_count + 1,
        follow_user_step(s, first, now)->Ok_0.profiles[first.follower_profile@].followers_count
            == s.profiles[first.follower_profile@].followers_count,
        follow_user_step(s, first, now)->Ok_0.profiles[first.following_profile@].following_count
            == s.profiles[first.following_profile@].following_count,
{
}

/// The same by identities: after `follower` has followed the profile at
/// `following_profile`, a second follow whose records all have addresses is
/// refused.
pub proof fn law_follow_twice(
    s: LedgerState,
    follower: Seq<u8>,
    following_profile: Seq<u8>,
    now: i64,
    later: i64,
)
    requires
        follow_user_outcome(s, follower, following_profile, now) is Ok,
        FollowUser::resolution(
            s.program_id,
            follower,
            following_profile,
            later,
            follow_user_outcome(s, follower, following_profile, now)->Ok_0.feed_nonce,
        ) is Some,
    ensures
        follow_user_outcome(
            follow_user_outcome(s, follower, following_profile, now)->Ok_0,
            follower,
            following_profile,
            later,
        ) == Err::<LedgerState, LedgerError>(LedgerError::Program(SpotifyError::AlreadyFollowing)),
{
    let first = FollowUser::resolution(s.program_id, follower, following_profile, now, s.feed_nonce)->0;
    let s1 = follow_user_step(s, first, now)->Ok_0;
    let second = FollowUser::resolution(
        s1.program_id,
        follower,
        following_profile,
        later,
        s1.feed_nonce,
    )->0;
    law_follow_once(s, first, second, now, later);
}

/// A track added to a playlist takes the position that the playlist's
/// `tracks_count` named, and the count then names the next position.
pub proof fn law_position_is_count(s: LedgerState, ctx: AddTrackToPlaylist, now: i64)
    requires
        add_track_to_playlist_step(s, ctx, now) is Ok,
    ensures
        add_track_to_playlist_step(s, ctx, now)->Ok_0.playlist_tracks[ctx.playlist_track@].position
            == s.playlists[ctx.playlist@].tracks_count,
        add_track_to_playlist_step(s, ctx, now)->Ok_0.playlists[ctx.playlist@].tracks_count
            == s.playlists[ctx.playlist@].tracks_count + 1,
{
}

/// Three tracks added in turn to one playlist take three consecutive
/// positions, starting at the playlist's count, which ends three higher.
pub proof fn law_three_positions(
    s: LedgerState,
    a: AddTrackToPlaylist,
    b: AddTrackToPlaylist,
    c: AddTrackToPlaylist,
    t1: i64,
    t2: i64,
    t3: i64,
)
    requires
        a.playlist@ == b.playlist@,
        b.playlist@ == c.playlist@,
        add_track_to_playlist_step(s, a, t1) is Ok,
        add_track_to_playlist_step(add_track_to_playlist_step(s, a, t1)->Ok_0, b, t2) is Ok,
        add_track_to_playlist_step(
            add_track_to_playlist_step(add_track_to_playlist_step(s, a, t1)->Ok_0, b, t2)->Ok_0,
            c,
            t3,
        ) is Ok,
    ensures
        ({
            let start = s.playlists[a.playlist@].tracks_count;
            let end = add_track_to_playlist_step(
                add_track_to_playlist_step(add_track_to_playlist_step(s, a, t1)->Ok_0, b, t2)->Ok_0,
                c,
                t3,
            )->Ok_0;
            &&& end.playlist_tracks[a.playlist_track@].position == start
            &&& end.playlist_tracks[b.playlist_track@].position == start + 1
            &&& end.playlist_tracks[c.playlist_track@].position == start + 2
            &&& end.playlists[a.playlist@].tracks_count == start + 3
        }),
{
    let s1 = add_track_to_playlist_step(s, a, t1)->Ok_0;
    let s2 = add_track_to_playlist_step(s1, b, t2)->Ok_0;
    let s3 = add_track_to_playlist_step(s2, c, t3)->Ok_0;
    assert(s1.playlist_tracks.contains_key(a.playlist_track@));
    assert(s2.playlist_tracks.contains_key(a.playlist_track@));
    assert(s2.playlist_tracks.contains_key(b.playlist_track@));
}

/// One play: how long it lasted and when it happened.
pub struct Play {
    pub duration: u64,
    pub at: i64,
}

/// The ledger after the plays of `plays`, in order, on the records of `ctx`;
/// the first refusal ends the run.
pub open spec fn play_all(s: LedgerState, ctx: PlayTrack, plays: Seq<Play>) -> Result<
    LedgerState,
    LedgerError,
>
    decreases plays.len(),
{
    if plays.len() == 0 {
        Ok(s)
    } else {
        match play_all(s, ctx, plays.drop_last()) {
            Ok(before) => play_track_step(before, ctx, plays.last().duration, plays.last().at),
            Err(e) => Err(e),
        }
    }
}

/// The sum of the durations of `plays`.
pub open spec fn total_duration(plays: Seq<Play>) -> int
    decreases plays.len(),
{
    if plays.len() == 0 {
        0
    } else {
        total_duration(plays.drop_last()) + plays.last().duration
    }
}

/// The play count and total duration stored at `key`, or zero where nothing
/// is stored there.
pub open spec fn played(s: LedgerState, key: Seq<u8>) -> (int, int) {
    if s.track_plays.contains_key(key) {
        (s.track_plays[key].play_count as int, s.track_plays[key].total_duration as int)
    } else {
        (0, 0)
    }
}

/// A run of plays that is not refused adds its length to the track's
/// `plays_count`, to the creator's `total_plays` and to the listener's play
/// count for the track, and adds the sum of its durations to the listener's
/// total duration.
pub proof fn law_plays_accumulate(s: LedgerState, ctx: PlayTrack, plays: Seq<Play>)
    requires
        play_all(s, ctx, plays) is Ok,
        s.tracks.contains_key(ctx.track@),
        s.stats.contains_key(ctx.creator_stats@),
    ensures
        ({
            let end = play_all(s, ctx, plays)->Ok_0;
            &&& end.tracks.contains_key(ctx.track@)
            &&& end.stats.contains_key(ctx.creator_stats@)
            &&& end.tracks[ctx.track@].plays_count == s.tracks[ctx.track@].plays_count
                + plays.len()
            &&& end.stats[ctx.creator_stats@].total_plays == s.stats[ctx.creator_stats@].total_plays
                + plays.len()
            &&& played(end, ctx.track_play@).0 == played(s, ctx.track_play@).0 + plays.len()
            &&& played(end, ctx.track_play@).1 == played(s, ctx.track_play@).1 + total_duration(
                plays,
            )
            &&& plays.len() > 0 ==> end.track_plays.contains_key(ctx.track_play@)
        }),
    decreases plays.len(),
{
    if plays.len() > 0 {
        law_plays_accumulate(s, ctx, plays.drop_last());
    }
}

/// A track that has just been created and is then played `n` times without
/// refusal by a listener who had no aggregate for it shows `n` plays, and
/// the listener's aggregate shows `n` plays and the sum of their durations.
pub proof fn law_create_then_play(
    s: LedgerState,
    create: CreateTrack,
    title: Seq<char>,
    artist: Seq<char>,
    album: Seq<char>,
    genre: Seq<char>,
    duration: u64,
    audio_url: Seq<char>,
    cover_image: Seq<char>,
    now: i64,
    ctx: PlayTrack,
    plays: Seq<Play>,
)
    requires
        create_track_step(
            s,
            create,
            title,
            artist,
            album,
            genre,
            duration,
            audio_url,
            cover_image,
            now,
        ) is Ok,
        ctx.track@ == create.track@,
        !s.track_plays.contains_key(ctx.track_play@),
        play_all(
            create_track_step(
                s,
                create,
                title,
                artist,
                album,
                genre,
                duration,
                audio_url,
                cover_image,
                now,
            )->Ok_0,
            ctx,
            plays,
        ) is Ok,
    ensures
        ({
            let created = create_track_step(
                s,
                create,
                title,
                artist,
                album,
                genre,
                duration,
                audio_url,
                cover_image,
                now,
            )->Ok_0;
            let end = play_all(created, ctx, plays)->Ok_0;
            &&& end.tracks[ctx.track@].plays_count == plays.len()
            &&& plays.len() > 0 ==> end.track_plays[ctx.track_play@].play_count == plays.len()
            &&& plays.len() > 0 ==> end.track_plays[ctx.track_play@].total_duration
                == total_duration(plays)
        }),
{
    let created = create_track_step(
        s,
        create,
        title,
        artist,
        album,
        genre,
        duration,
        audio_url,
        cover_image,
        now,
    )->Ok_0;
    if plays.len() > 0 {
        lemma_run_needs_records(created, ctx, plays);
        law_plays_accumulate(created, ctx, plays);
    }
}

/// A run of at least one play that is not refused started on a ledger that
/// held the track and the creator's statistics.
proof fn lemma_run_needs_records(s: LedgerState, ctx: PlayTrack, plays: Seq<Play>)
    requires
        play_all(s, ctx, plays) is Ok,
        plays.len() > 0,
    ensures
        s.tracks.contains_key(ctx.track@),
        s.stats.contains_key(ctx.creator_stats@),
    decreases plays.len(),
{
    if plays.len() > 1 {
        lemma_run_needs_records(s, ctx, plays.drop_last());
    } else {
        assert(play_all(s, ctx, plays.drop_last()) == Ok::<LedgerState, LedgerError>(s));
    }
}

/// Taking back a like that was just given succeeds and restores the track,
/// the set of likes and the creator's `total_likes_received`.
pub proof fn law_unlike_undoes_like(
    s: LedgerState,
    like: LikeTrack,
    unlike: UnlikeTrack,
    now: i64,
    later: i64,
)
    requires
        like_track_step(s, like, now) is Ok,
        unlike.track@ == like.track@,
        unlike.track_like@ == like.track_like@,
        unlike.user_stats@ == like.user_stats@,
        unlike.creator_stats@ == like.creator_stats@,
    ensures
        unlike_track_step(like_track_step(s, like, now)->Ok_0, unlike, later) is Ok,
        ({
            let end = unlike_track_step(like_track_step(s, like, now)->Ok_0, unlike, later)->Ok_0;
            &&& end.tracks == s.tracks
            &&& end.track_likes == s.track_likes
            &&& end.stats[like.creator_stats@].total_likes_received
                == s.stats[like.creator_stats@].total_likes_received
        }),
{
    let mid = like_track_step(s, like, now)->Ok_0;
    let end = unlike_track_step(mid, unlike, later)->Ok_0;
    assert(end.tracks =~= s.tracks);
    assert(end.track_likes =~= s.track_likes);
}

/// A like that has been taken back is refused as not given when taken back
/// again.
pub proof fn law_unlike_once(s: LedgerState, first: UnlikeTrack, second: UnlikeTrack, now: i64,
    later: i64)
    requires
        unlike_track_step(s, first, now) is Ok,
        second.track@ == first.track@,
        second.track_like@ == first.track_like@,
        second.user_stats@ == first.user_stats@,
        second.creator_stats@ == first.creator_stats@,
    ensures
        unlike_track_step(unlike_track_step(s, first, now)->Ok_0, second, later) == Err::<
            LedgerState,
            LedgerError,
        >(LedgerError::Program(SpotifyError::TrackNotLiked)),
{
}

/// Ending a follow that was just made succeeds and restores both profiles
/// and the set of follows.
pub proof fn law_unfollow_undoes_follow(
    s: LedgerState,
    follow: FollowUser,
    unfollow: UnfollowUser,
    now: i64,
)
    requires
        follow_user_step(s, follow, now) is Ok,
        unfollow.follower_profile@ == follow.follower_profile@,
        unfollow.following_profile@ == follow.following_profile@,
        unfollow.user_follow@ == follow.user_follow@,
    ensures
        unfollow_user_step(follow_user_step(s, follow, now)->Ok_0, unfollow) is Ok,
        ({
            let end = unfollow_user_step(follow_user_step(s, follow, now)->Ok_0, unfollow)->Ok_0;
            &&& end.profiles == s.profiles
            &&& end.follows == s.follows
        }),
{
    let mid = follow_user_step(s, follow, now)->Ok_0;
    let end = unfollow_user_step(mid, unfollow)->Ok_0;
    assert(end.profiles =~= s.profiles);
    assert(end.follows =~= s.follows);
}

/// Every record with text in a valid ledger can be stored: each of its
/// texts is within its field, and its bytes are within the size its type
/// reserves.
pub proof fn law_valid_records_fit(s: LedgerState)
    requires
        s.valid(),
    ensures
        forall|k: Seq<u8>|
            s.profiles.contains_key(k) ==> encodable::<UserProfile>(#[trigger] s.profiles[k])
                && record_bytes::<UserProfile>(s.profiles[k]).len() <= UserProfile::MAX_SIZE,
        forall|k: Seq<u8>|
            s.tracks.contains_key(k) ==> encodable::<Track>(#[trigger] s.tracks[k])
                && record_bytes::<Track>(s.tracks[k]).len() <= Track::MAX_SIZE,
        forall|k: Seq<u8>|
            s.playlists.contains_key(k) ==> encodable::<Playlist>(#[trigger] s.playlists[k])
                && record_bytes::<Playlist>(s.playlists[k]).len() <= Playlist::MAX_SIZE,
        forall|k: Seq<u8>|
            s.feed.contains_key(k) ==> encodable::<ActivityFeed>(#[trigger] s.feed[k])
                && record_bytes::<ActivityFeed>(s.feed[k]).len() <= ActivityFeed::MAX_SIZE,
        forall|k: Seq<u8>|
            s.search.contains_key(k) ==> encodable::<SearchIndex>(#[trigger] s.search[k])
                && record_bytes::<SearchIndex>(s.search[k]).len() <= SearchIndex::MAX_SIZE,
        forall|k: Seq<u8>|
            s.insights.contains_key(k) ==> encodable::<UserInsights>(#[trigger] s.insights[k])
                && record_bytes::<UserInsights>(s.insights[k]).len() <= UserInsights::MAX_SIZE,
        forall|k: Seq<u8>|
            s.recommendations.contains_key(k) ==> encodable::<Recommendation>(
                #[trigger] s.recommendations[k],
            ) && record_bytes::<Recommendation>(s.recommendations[k]).len()
                <= Recommendation::MAX_SIZE,
{
    assert forall|k: Seq<u8>| s.profiles.contains_key(k) implies encodable::<UserProfile>(
        #[trigger] s.profiles[k],
    ) && record_bytes::<UserProfile>(s.profiles[k]).len() <= UserProfile::MAX_SIZE by {
        law_user_profile_is_encodable(s.profiles[k]);
        law_record_size::<UserProfile>(s.profiles[k]);
    }
    assert forall|k: Seq<u8>| s.tracks.contains_key(k) implies encodable::<Track>(
        #[trigger] s.tracks[k],
    ) && record_bytes::<Track>(s.tracks[k]).len() <= Track::MAX_SIZE by {
        law_track_is_encodable(s.tracks[k]);
        law_record_size::<Track>(s.tracks[k]);
    }
    assert forall|k: Seq<u8>| s.playlists.contains_key(k) implies encodable::<Playlist>(
        #[trigger] s.playlists[k],
    ) && record_bytes::<Playlist>(s.playlists[k]).len() <= Playlist::MAX_SIZE by {
        law_playlist_is_encodable(s.playlists[k]);
        law_record_size::<Playlist>(s.playlists[k]);
    }
    assert forall|k: Seq<u8>| s.feed.contains_key(k) implies encodable::<ActivityFeed>(
        #[trigger] s.feed[k],
    ) && record_bytes::<ActivityFeed>(s.feed[k]).len() <= ActivityFeed::MAX_SIZE by {
        law_activity_feed_is_encodable(s.feed[k]);
        law_record_size::<ActivityFeed>(s.feed[k]);
    }
    assert forall|k: Seq<u8>| s.search.contains_key(k) implies encodable::<SearchIndex>(
        #[trigger] s.search[k],
    ) && record_bytes::<SearchIndex>(s.search[k]).len() <= SearchIndex::MAX_SIZE by {
        law_search_index_is_encodable(s.search[k]);
        law_record_size::<SearchIndex>(s.search[k]);
    }
    assert forall|k: Seq<u8>| s.insights.contains_key(k) implies encodable::<UserInsights>(
        #[trigger] s.insights[k],
    ) && record_bytes::<UserInsights>(s.insights[k]).len() <= UserInsights::MAX_SIZE by {
        law_user_insights_is_encodable(s.insights[k]);
        law_record_size::<UserInsights>(s.insights[k]);
    }
    assert forall|k: Seq<u8>| s.recommendations.contains_key(k) implies encodable::<Recommendation>(
        #[trigger] s.recommendations[k],
    ) && record_bytes::<Recommendation>(s.recommendations[k]).len()
        <= Recommendation::MAX_SIZE by {
        law_recommendation_is_encodable(s.recommendations[k]);
        law_record_size::<Recommendation>(s.recommendations[k]);
    }
}

/// One addition to a playlist: the records it touches and when it happens.
pub struct Addition {
    pub ctx: AddTrackToPlaylist,
    pub at: i64,
}

/// The ledger after the additions of `adds`, in order; the first refusal
/// ends the run.
pub open spec fn add_all(s: LedgerState, adds: Seq<Addition>) -> Result<LedgerState, LedgerError>
    decreases adds.len(),
{
    if adds.len() == 0 {
        Ok(s)
    } else {
        match add_all(s, adds.drop_last()) {
            Ok(before) => add_track_to_playlist_step(before, adds.last().ctx, adds.last().at),
            Err(e) => Err(e),
        }
    }
}

/// Tracks added in turn to one playlist take consecutive positions in the
/// order of their addition, starting at the playlist's count, which ends
/// higher by their number.
pub proof fn law_positions_follow_additions(s: LedgerState, playlist: Seq<u8>, adds: Seq<Addition>)
    requires
        add_all(s, adds) is Ok,
        s.playlists.contains_key(playlist),
        forall|i: int| 0 <= i < adds.len() ==> (#[trigger] adds[i]).ctx.playlist@ == playlist,
    ensures
        ({
            let end = add_all(s, adds)->Ok_0;
            let start = s.playlists[playlist].tracks_count;
            &&& end.playlists.contains_key(playlist)
            &&& end.playlists[playlist].tracks_count == start + adds.len()
            &&& forall|i: int|
                0 <= i < adds.len() ==> end.playlist_tracks.contains_key(
                    (#[trigger] adds[i]).ctx.playlist_track@,
                ) && end.playlist_tracks[adds[i].ctx.playlist_track@].position == start + i
        }),
    decreases adds.len(),
{
    if adds.len() > 0 {
        let earlier = adds.drop_last();
        assert forall|i: int| 0 <= i < earlier.len() implies (#[trigger] earlier[i]).ctx.playlist@
            == playlist by {
            assert(earlier[i] == adds[i]);
        }
        law_positions_follow_additions(s, playlist, earlier);
        let mid = add_all(s, earlier)->Ok_0;
        let end = add_all(s, adds)->Ok_0;
        let last = adds.last();
        assert(last == adds[adds.len() - 1]);
        assert forall|i: int| 0 <= i < adds.len() implies end.playlist_tracks.contains_key(
            (#[trigger] adds[i]).ctx.playlist_track@,
        ) && end.playlist_tracks[adds[i].ctx.playlist_track@].position
            == s.playlists[playlist].tracks_count + i by {
            if i < adds.len() - 1 {
                assert(earlier[i] == adds[i]);
                assert(mid.playlist_tracks.contains_key(earlier[i].ctx.playlist_track@));
            }
        }
    }
}

/// The search entry for a term and type points to the target indexed last.
pub proof fn law_last_writer_wins(
    s: LedgerState,
    first: CreateSearchIndex,
    second: CreateSearchIndex,
    term: Seq<char>,
    target_type: u8,
    one: Address,
    other: Address,
    now: i64,
    later: i64,
)
    requires
        first.search_index@ == second.search_index@,
        store_search_index_step(s, first, term, target_type, one, now) is Ok,
    ensures
        store_search_index_step(
            store_search_index_step(s, first, term, target_type, one, now)->Ok_0,
            second,
            term,
            target_type,
            other,
            later,
        ) is Ok,
        store_search_index_step(
            store_search_index_step(s, first, term, target_type, one, now)->Ok_0,
            second,
            term,
            target_type,
            other,
            later,
        )->Ok_0.search[first.search_index@].target_pubkey == other,
{
}

/// A collaborator whose stored bitmask is the add bit alone passes the check
/// for adding tracks and is refused removal, on a playlist they do not own.
pub proof fn law_add_only_on_ledger(s: LedgerState, actor: Seq<u8>, playlist: Seq<u8>, edge: Seq<u8>)
    requires
        s.playlists.contains_key(playlist),
        s.playlists[playlist].authority@ != actor,
        s.collaborators.contains_key(edge),
        s.collaborators[edge].playlist@ == playlist,
        s.collaborators[edge].user@ == actor,
        s.collaborators[edge].permissions == PlaylistCollaborator::PERMISSION_ADD_TRACKS,
    ensures
        capability_check(s, actor, playlist, edge, Capability::AddTracks) == Ok::<
            (),
            LedgerError,
        >(()),
        capability_check(s, actor, playlist, edge, Capability::RemoveTracks) == Err::<
            (),
            LedgerError,
        >(LedgerError::Program(SpotifyError::NoPermissionToRemoveTrack)),
{
    law_add_only_collaborator(s.playlists[playlist], playlist, actor, s.collaborators[edge]);
}

} // verus!
