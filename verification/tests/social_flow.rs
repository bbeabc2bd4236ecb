use spotify_dapp::address::Address;
use spotify_dapp::errors::{LedgerError, SpotifyError};
use spotify_dapp::instructions::social::{
    follow_user, like_track, unfollow_user, unlike_track, FollowUser, LikeTrack, UnfollowUser,
    UnlikeTrack,
};
use spotify_dapp::instructions::track::CreateTrack;
use spotify_dapp::instructions::user::CreateUserProfile;
use spotify_dapp::ledger::Ledger;
use spotify_dapp::program;
use spotify_dapp::state::{ActivityFeed, Track, TrackLike, UserFollow};

fn key(n: u8) -> Address {
    Address::new([n; 32])
}

fn fresh() -> Ledger {
    Ledger::new(key(200))
}

fn signup(ledger: &mut Ledger, who: &Address, name: &str) {
    let r = program::create_user_profile(
        ledger,
        who,
        name.to_string(),
        "Display".to_string(),
        "bio".to_string(),
        "https://img".to_string(),
        100,
    );
    assert_eq!(r, Ok(()));
}

fn publish(ledger: &mut Ledger, who: &Address, title: &str) -> Address {
    let r = program::create_track(
        ledger,
        who,
        title.to_string(),
        "Artist".to_string(),
        "Album".to_string(),
        "Rock".to_string(),
        180,
        "https://audio".to_string(),
        "https://cover".to_string(),
        101,
    );
    assert_eq!(r, Ok(()));
    CreateTrack::resolve(&ledger.program_id, who, &title.to_string(), &"Artist".to_string())
        .unwrap()
        .track
}

#[test]
fn like_twice_fails_and_counts_once() {
    let mut ledger = fresh();
    let alice = key(1);
    let bob = key(2);
    signup(&mut ledger, &alice, "alice");
    signup(&mut ledger, &bob, "bob");
    let track = publish(&mut ledger, &alice, "Song");
    assert_eq!(program::like_track(&mut ledger, &bob, &track, 110), Ok(()));
    assert_eq!(
        program::like_track(&mut ledger, &bob, &track, 111),
        Err(LedgerError::Program(SpotifyError::AlreadyLikedTrack))
    );
    assert_eq!(ledger.tracks.get(&track).unwrap().likes_count, 1);
    let alice_stats = CreateUserProfile::resolve(&ledger.program_id, &alice).unwrap().user_stats;
    assert_eq!(ledger.stats.get(&alice_stats).unwrap().total_likes_received, 1);
    let ctx = LikeTrack::resolve(&ledger.program_id, &bob, &track, &alice, 110, 0).unwrap();
    let entry = ledger.feed.get(&ctx.activity_feed).unwrap();
    assert_eq!(entry.metadata, "Liked track: Song");
    assert_eq!(entry.activity_type, 1);
    assert_eq!(ledger.feed_nonce, 1);
}

#[test]
fn follow_raises_both_counters_once() {
    let mut ledger = fresh();
    let alice = key(1);
    let bob = key(2);
    signup(&mut ledger, &alice, "alice");
    signup(&mut ledger, &bob, "bob");
    let alice_profile = CreateUserProfile::resolve(&ledger.program_id, &alice).unwrap().user_profile;
    let bob_profile = CreateUserProfile::resolve(&ledger.program_id, &bob).unwrap().user_profile;
    assert_eq!(program::follow_user(&mut ledger, &alice, &bob_profile, 120), Ok(()));
    let a = ledger.profiles.get(&alice_profile).unwrap();
    assert_eq!(a.following_count, 1);
    assert_eq!(a.followers_count, 0);
    let b = ledger.profiles.get(&bob_profile).unwrap();
    assert_eq!(b.followers_count, 1);
    assert_eq!(b.following_count, 0);
    let ctx = FollowUser::resolve(&ledger.program_id, &alice, &bob_profile, 120, 0).unwrap();
    assert_eq!(
        *ledger.follows.get(&ctx.user_follow).unwrap(),
        UserFollow { follower: alice_profile, following: bob_profile, created_at: 120 }
    );
    assert_eq!(
        *ledger.feed.get(&ctx.activity_feed).unwrap(),
        ActivityFeed {
            user: alice,
            activity_type: ActivityFeed::ACTIVITY_USER_FOLLOWED,
            target: bob_profile,
            metadata: "Followed bob".to_string(),
            created_at: 120,
        }
    );
    assert_eq!(
        program::follow_user(&mut ledger, &alice, &bob_profile, 121),
        Err(LedgerError::Program(SpotifyError::AlreadyFollowing))
    );
    assert_eq!(ledger.profiles.get(&alice_profile).unwrap().following_count, 1);
    assert_eq!(ledger.profiles.get(&bob_profile).unwrap().followers_count, 1);
    assert_eq!(ledger.feed_nonce, 1);
}

#[test]
fn following_back_is_a_separate_edge() {
    let mut ledger = fresh();
    let alice = key(1);
    let bob = key(2);
    signup(&mut ledger, &alice, "alice");
    signup(&mut ledger, &bob, "bob");
    let alice_profile = CreateUserProfile::resolve(&ledger.program_id, &alice).unwrap().user_profile;
    let bob_profile = CreateUserProfile::resolve(&ledger.program_id, &bob).unwrap().user_profile;
    assert_eq!(program::follow_user(&mut ledger, &alice, &bob_profile, 120), Ok(()));
    assert_eq!(program::follow_user(&mut ledger, &bob, &alice_profile, 120), Ok(()));
    let a = ledger.profiles.get(&alice_profile).unwrap();
    assert_eq!((a.followers_count, a.following_count), (1, 1));
    let b = ledger.profiles.get(&bob_profile).unwrap();
    assert_eq!((b.followers_count, b.following_count), (1, 1));
}

#[test]
fn nobody_follows_themselves() {
    let mut ledger = fresh();
    let alice = key(1);
    signup(&mut ledger, &alice, "alice");
    let alice_profile = CreateUserProfile::resolve(&ledger.program_id, &alice).unwrap().user_profile;
    assert_eq!(
        program::follow_user(&mut ledger, &alice, &alice_profile, 120),
        Err(LedgerError::Program(SpotifyError::CannotFollowSelf))
    );
    let a = ledger.profiles.get(&alice_profile).unwrap();
    assert_eq!((a.followers_count, a.following_count), (0, 0));
    assert_eq!(ledger.feed_nonce, 0);
}

#[test]
fn self_follow_is_refused_even_without_a_profile() {
    let mut ledger = fresh();
    let ghost = key(7);
    let ghost_profile = CreateUserProfile::resolve(&ledger.program_id, &ghost).unwrap().user_profile;
    assert_eq!(
        program::follow_user(&mut ledger, &ghost, &ghost_profile, 120),
        Err(LedgerError::Program(SpotifyError::CannotFollowSelf))
    );
}

#[test]
fn follow_of_a_missing_profile_is_not_found() {
    let mut ledger = fresh();
    let alice = key(1);
    signup(&mut ledger, &alice, "alice");
    assert_eq!(program::follow_user(&mut ledger, &alice, &key(77), 120), Err(LedgerError::NotFound));
}

#[test]
fn follower_count_at_maximum_refuses_the_follow() {
    let mut ledger = fresh();
    let alice = key(1);
    let bob = key(2);
    signup(&mut ledger, &alice, "alice");
    signup(&mut ledger, &bob, "bob");
    let alice_profile = CreateUserProfile::resolve(&ledger.program_id, &alice).unwrap().user_profile;
    let bob_profile = CreateUserProfile::resolve(&ledger.program_id, &bob).unwrap().user_profile;
    let mut famous = ledger.profiles.take(&bob_profile).unwrap();
    famous.followers_count = u64::MAX;
    ledger.profiles.put(bob_profile, famous);
    let ctx = FollowUser::resolve(&ledger.program_id, &alice, &bob_profile, 120, 0).unwrap();
    assert_eq!(
        follow_user(&mut ledger, &ctx, 120),
        Err(LedgerError::Program(SpotifyError::ArithmeticOverflow))
    );
    assert_eq!(ledger.profiles.get(&bob_profile).unwrap().followers_count, u64::MAX);
    assert_eq!(ledger.profiles.get(&alice_profile).unwrap().following_count, 0);
    assert!(!ledger.follows.contains(&ctx.user_follow));
    assert!(!ledger.feed.contains(&ctx.activity_feed));
    assert_eq!(ledger.feed_nonce, 0);
}

#[test]
fn like_count_at_maximum_refuses_the_like() {
    let mut ledger = fresh();
    let alice = key(1);
    let bob = key(2);
    signup(&mut ledger, &alice, "alice");
    signup(&mut ledger, &bob, "bob");
    let track = publish(&mut ledger, &alice, "Song");
    let mut loved = ledger.tracks.take(&track).unwrap();
    loved.likes_count = u64::MAX;
    ledger.tracks.put(track, loved);
    let ctx = LikeTrack::resolve(&ledger.program_id, &bob, &track, &alice, 110, 0).unwrap();
    assert_eq!(
        like_track(&mut ledger, &ctx, 110),
        Err(LedgerError::Program(SpotifyError::ArithmeticOverflow))
    );
    assert_eq!(ledger.tracks.get(&track).unwrap().likes_count, u64::MAX);
    assert!(!ledger.track_likes.contains(&ctx.track_like));
    assert!(!ledger.feed.contains(&ctx.activity_feed));
    assert_eq!(ledger.stats.get(&ctx.creator_stats).unwrap().total_likes_received, 0);
    assert_eq!(ledger.stats.get(&ctx.user_stats).unwrap().last_active, 100);
}

#[test]
fn two_users_like_one_track() {
    let mut ledger = fresh();
    let alice = key(1);
    let bob = key(2);
    let carol = key(3);
    signup(&mut ledger, &alice, "alice");
    signup(&mut ledger, &bob, "bob");
    signup(&mut ledger, &carol, "carol");
    let track = publish(&mut ledger, &alice, "Song");
    assert_eq!(program::like_track(&mut ledger, &bob, &track, 110), Ok(()));
    assert_eq!(program::like_track(&mut ledger, &carol, &track, 110), Ok(()));
    assert_eq!(ledger.tracks.get(&track).unwrap().likes_count, 2);
    let bob_ctx = LikeTrack::resolve(&ledger.program_id, &bob, &track, &alice, 110, 0).unwrap();
    assert_eq!(
        *ledger.track_likes.get(&bob_ctx.track_like).unwrap(),
        TrackLike { user: bob, track, created_at: 110 }
    );
    assert_eq!(ledger.stats.get(&bob_ctx.creator_stats).unwrap().total_likes_received, 2);
    assert_eq!(ledger.stats.get(&bob_ctx.user_stats).unwrap().last_active, 110);
    assert_eq!(ledger.feed_nonce, 2);
}

#[test]
fn one_user_likes_two_tracks_in_one_second() {
    let mut ledger = fresh();
    let alice = key(1);
    let bob = key(2);
    signup(&mut ledger, &alice, "alice");
    signup(&mut ledger, &bob, "bob");
    let first = publish(&mut ledger, &alice, "One");
    let second = publish(&mut ledger, &alice, "Two");
    assert_eq!(program::like_track(&mut ledger, &bob, &first, 110), Ok(()));
    assert_eq!(program::like_track(&mut ledger, &bob, &second, 110), Ok(()));
    let a = LikeTrack::resolve(&ledger.program_id, &bob, &first, &alice, 110, 0).unwrap();
    let b = LikeTrack::resolve(&ledger.program_id, &bob, &second, &alice, 110, 1).unwrap();
    assert_ne!(a.activity_feed, b.activity_feed);
    assert_eq!(ledger.feed.get(&a.activity_feed).unwrap().metadata, "Liked track: One");
    assert_eq!(ledger.feed.get(&b.activity_feed).unwrap().metadata, "Liked track: Two");
}

#[test]
fn like_whose_activity_text_would_not_fit_is_refused() {
    let mut ledger = fresh();
    let alice = key(1);
    let bob = key(2);
    signup(&mut ledger, &alice, "alice");
    signup(&mut ledger, &bob, "bob");
    let long_title = "x".repeat(52);
    let track = key(60);
    ledger.tracks.put(
        track,
        Track {
            title: long_title,
            artist: String::new(),
            album: String::new(),
            genre: String::new(),
            duration: 1,
            audio_url: String::new(),
            cover_image: String::new(),
            likes_count: 0,
            plays_count: 0,
            created_by: alice,
            created_at: 0,
        },
    );
    assert_eq!(program::like_track(&mut ledger, &bob, &track, 110), Err(LedgerError::FieldTooLong));
    assert_eq!(ledger.tracks.get(&track).unwrap().likes_count, 0);
    let mut shorter = ledger.tracks.take(&track).unwrap();
    shorter.title = "x".repeat(51);
    ledger.tracks.put(track, shorter);
    assert_eq!(program::like_track(&mut ledger, &bob, &track, 110), Ok(()));
}

#[test]
fn like_of_a_missing_track_is_not_found() {
    let mut ledger = fresh();
    let bob = key(2);
    signup(&mut ledger, &bob, "bob");
    assert_eq!(program::like_track(&mut ledger, &bob, &key(60), 110), Err(LedgerError::NotFound));
}

#[test]
fn unlike_reverses_a_like_and_allows_liking_again() {
    let mut ledger = fresh();
    let alice = key(1);
    let bob = key(2);
    signup(&mut ledger, &alice, "alice");
    signup(&mut ledger, &bob, "bob");
    let track = publish(&mut ledger, &alice, "Song");
    assert_eq!(
        program::unlike_track(&mut ledger, &bob, &track, 105),
        Err(LedgerError::Program(SpotifyError::TrackNotLiked))
    );
    assert_eq!(program::like_track(&mut ledger, &bob, &track, 110), Ok(()));
    assert_eq!(program::unlike_track(&mut ledger, &bob, &track, 115), Ok(()));
    let ctx = UnlikeTrack::resolve(&ledger.program_id, &bob, &track, &alice).unwrap();
    assert!(!ledger.track_likes.contains(&ctx.track_like));
    assert_eq!(ledger.tracks.get(&track).unwrap().likes_count, 0);
    assert_eq!(ledger.stats.get(&ctx.creator_stats).unwrap().total_likes_received, 0);
    assert_eq!(ledger.stats.get(&ctx.user_stats).unwrap().last_active, 115);
    assert_eq!(
        program::unlike_track(&mut ledger, &bob, &track, 116),
        Err(LedgerError::Program(SpotifyError::TrackNotLiked))
    );
    assert_eq!(program::like_track(&mut ledger, &bob, &track, 120), Ok(()));
    assert_eq!(ledger.tracks.get(&track).unwrap().likes_count, 1);
}

#[test]
fn unlike_with_a_counter_at_zero_is_refused_as_underflow() {
    let mut ledger = fresh();
    let alice = key(1);
    let bob = key(2);
    signup(&mut ledger, &alice, "alice");
    signup(&mut ledger, &bob, "bob");
    let track = publish(&mut ledger, &alice, "Song");
    assert_eq!(program::like_track(&mut ledger, &bob, &track, 110), Ok(()));
    let mut broken = ledger.tracks.take(&track).unwrap();
    broken.likes_count = 0;
    ledger.tracks.put(track, broken);
    let ctx = UnlikeTrack::resolve(&ledger.program_id, &bob, &track, &alice).unwrap();
    assert_eq!(
        unlike_track(&mut ledger, &ctx, 115),
        Err(LedgerError::Program(SpotifyError::ArithmeticUnderflow))
    );
    assert!(ledger.track_likes.contains(&ctx.track_like));
    assert_eq!(ledger.stats.get(&ctx.creator_stats).unwrap().total_likes_received, 1);
}

#[test]
fn unfollow_reverses_a_follow() {
    let mut ledger = fresh();
    let alice = key(1);
    let bob = key(2);
    signup(&mut ledger, &alice, "alice");
    signup(&mut ledger, &bob, "bob");
    let alice_profile = CreateUserProfile::resolve(&ledger.program_id, &alice).unwrap().user_profile;
    let bob_profile = CreateUserProfile::resolve(&ledger.program_id, &bob).unwrap().user_profile;
    assert_eq!(
        program::unfollow_user(&mut ledger, &alice, &bob_profile),
        Err(LedgerError::Program(SpotifyError::NotFollowing))
    );
    assert_eq!(program::follow_user(&mut ledger, &alice, &bob_profile, 120), Ok(()));
    assert_eq!(program::unfollow_user(&mut ledger, &alice, &bob_profile), Ok(()));
    let ctx = UnfollowUser::resolve(&ledger.program_id, &alice, &bob_profile).unwrap();
    assert!(!ledger.follows.contains(&ctx.user_follow));
    let a = ledger.profiles.get(&alice_profile).unwrap();
    assert_eq!((a.followers_count, a.following_count), (0, 0));
    let b = ledger.profiles.get(&bob_profile).unwrap();
    assert_eq!((b.followers_count, b.following_count), (0, 0));
    assert_eq!(unfollow_user(&mut ledger, &ctx), Err(LedgerError::Program(SpotifyError::NotFollowing)));
    assert_eq!(program::follow_user(&mut ledger, &alice, &bob_profile, 130), Ok(()));
    assert_eq!(ledger.profiles.get(&bob_profile).unwrap().followers_count, 1);
}
