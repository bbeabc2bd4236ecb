use spotify_dapp::address::Address;
use spotify_dapp::errors::{LedgerError, SpotifyError};
use spotify_dapp::instructions::track::{
    advance_play, play_track, validate_track, CreateTrack, PlayTrack,
};
use spotify_dapp::instructions::user::CreateUserProfile;
use spotify_dapp::ledger::Ledger;
use spotify_dapp::program;
use spotify_dapp::state::{Track, TrackPlay};

fn track_key(n: u8) -> Address {
    Address::new([n; 32])
}

fn ledger_with(users: &[Address]) -> Ledger {
    let mut ledger = Ledger::new(track_key(200));
    for u in users {
        program::create_user_profile(
            &mut ledger,
            u,
            "user".to_string(),
            String::new(),
            String::new(),
            String::new(),
            1,
        )
        .unwrap();
    }
    ledger
}

fn s(n: usize) -> String {
    "t".repeat(n)
}

fn make_track(ledger: &mut Ledger, who: &Address, title: &str) -> Address {
    program::create_track(
        ledger,
        who,
        title.to_string(),
        "Artist".to_string(),
        "Album".to_string(),
        "Jazz".to_string(),
        200,
        "audio".to_string(),
        "cover".to_string(),
        2,
    )
    .unwrap();
    CreateTrack::resolve(&ledger.program_id, who, &title.to_string(), &"Artist".to_string())
        .unwrap()
        .track
}

#[test]
fn track_fields_are_checked_in_order() {
    assert_eq!(
        validate_track(&s(129), &s(65), &s(65), &s(33), 0, &s(257), &s(257)),
        Err(SpotifyError::TrackTitleTooLong)
    );
    assert_eq!(
        validate_track(&s(0), &s(65), &s(65), &s(33), 0, &s(257), &s(257)),
        Err(SpotifyError::TrackTitleEmpty)
    );
    assert_eq!(
        validate_track(&s(128), &s(65), &s(65), &s(33), 0, &s(257), &s(257)),
        Err(SpotifyError::ArtistNameTooLong)
    );
    assert_eq!(
        validate_track(&s(128), &s(64), &s(65), &s(33), 0, &s(257), &s(257)),
        Err(SpotifyError::AlbumNameTooLong)
    );
    assert_eq!(
        validate_track(&s(128), &s(64), &s(64), &s(33), 0, &s(257), &s(257)),
        Err(SpotifyError::GenreTooLong)
    );
    assert_eq!(
        validate_track(&s(128), &s(64), &s(64), &s(32), 0, &s(257), &s(257)),
        Err(SpotifyError::AudioUrlTooLong)
    );
    assert_eq!(
        validate_track(&s(128), &s(64), &s(64), &s(32), 0, &s(256), &s(257)),
        Err(SpotifyError::CoverImageUrlTooLong)
    );
    assert_eq!(
        validate_track(&s(128), &s(64), &s(64), &s(32), 0, &s(256), &s(256)),
        Err(SpotifyError::InvalidDuration)
    );
    assert_eq!(validate_track(&s(128), &s(64), &s(64), &s(32), 1, &s(256), &s(256)), Ok(()));
}

#[test]
fn created_track_has_no_likes_and_no_plays() {
    let alice = track_key(1);
    let mut ledger = ledger_with(&[alice]);
    let track = make_track(&mut ledger, &alice, "Song");
    let stored = ledger.tracks.get(&track).unwrap();
    assert_eq!(
        *stored,
        Track {
            title: "Song".to_string(),
            artist: "Artist".to_string(),
            album: "Album".to_string(),
            genre: "Jazz".to_string(),
            duration: 200,
            audio_url: "audio".to_string(),
            cover_image: "cover".to_string(),
            likes_count: 0,
            plays_count: 0,
            created_by: alice,
            created_at: 2,
        }
    );
    let stats = CreateUserProfile::resolve(&ledger.program_id, &alice).unwrap().user_stats;
    assert_eq!(ledger.stats.get(&stats).unwrap().tracks_created, 1);
    assert_eq!(ledger.stats.get(&stats).unwrap().last_active, 2);
}

#[test]
fn same_title_and_artist_twice_by_one_creator_is_refused() {
    let alice = track_key(1);
    let mut ledger = ledger_with(&[alice]);
    make_track(&mut ledger, &alice, "Song");
    let r = program::create_track(
        &mut ledger,
        &alice,
        "Song".to_string(),
        "Artist".to_string(),
        "Other".to_string(),
        "Pop".to_string(),
        10,
        String::new(),
        String::new(),
        3,
    );
    assert_eq!(r, Err(LedgerError::AlreadyExists));
    let stats = CreateUserProfile::resolve(&ledger.program_id, &alice).unwrap().user_stats;
    assert_eq!(ledger.stats.get(&stats).unwrap().tracks_created, 1);
}

#[test]
fn two_creators_may_use_one_title() {
    let alice = track_key(1);
    let bob = track_key(2);
    let mut ledger = ledger_with(&[alice, bob]);
    let a = make_track(&mut ledger, &alice, "Song");
    let b = make_track(&mut ledger, &bob, "Song");
    assert_ne!(a, b);
    assert_eq!(ledger.tracks.get(&a).unwrap().created_by, alice);
    assert_eq!(ledger.tracks.get(&b).unwrap().created_by, bob);
}

#[test]
fn track_without_statistics_is_not_found() {
    let alice = track_key(1);
    let mut ledger = ledger_with(&[]);
    let r = program::create_track(
        &mut ledger,
        &alice,
        "Song".to_string(),
        "Artist".to_string(),
        String::new(),
        String::new(),
        10,
        String::new(),
        String::new(),
        3,
    );
    assert_eq!(r, Err(LedgerError::NotFound));
}

#[test]
fn title_longer_than_a_seed_has_no_address() {
    let alice = track_key(1);
    let mut ledger = ledger_with(&[alice]);
    assert!(CreateTrack::resolve(&ledger.program_id, &alice, &s(33), &s(3)).is_none());
    assert!(CreateTrack::resolve(&ledger.program_id, &alice, &s(32), &s(33)).is_none());
    assert!(CreateTrack::resolve(&ledger.program_id, &alice, &s(32), &s(32)).is_some());
    let r = program::create_track(
        &mut ledger,
        &alice,
        s(33),
        s(3),
        String::new(),
        String::new(),
        10,
        String::new(),
        String::new(),
        3,
    );
    assert_eq!(r, Err(LedgerError::AddressUnavailable));
}

#[test]
fn plays_accumulate_count_and_duration() {
    let alice = track_key(1);
    let bob = track_key(2);
    let mut ledger = ledger_with(&[alice, bob]);
    let track = make_track(&mut ledger, &alice, "Song");
    let durations: [u64; 5] = [30, 0, 200, 45, 7];
    let mut at: i64 = 100;
    for d in durations {
        assert_eq!(program::play_track(&mut ledger, &bob, &track, d, at), Ok(()));
        at += 10;
    }
    assert_eq!(ledger.tracks.get(&track).unwrap().plays_count, 5);
    let ctx = PlayTrack::resolve(&ledger.program_id, &bob, &track, &alice).unwrap();
    assert_eq!(
        *ledger.track_plays.get(&ctx.track_play).unwrap(),
        TrackPlay {
            track,
            user: bob,
            play_count: 5,
            total_duration: 282,
            first_played_at: 100,
            last_played_at: 140,
        }
    );
    assert_eq!(ledger.stats.get(&ctx.creator_stats).unwrap().total_plays, 5);
    assert_eq!(ledger.stats.get(&ctx.user_stats).unwrap().total_plays, 0);
    assert_eq!(ledger.stats.get(&ctx.user_stats).unwrap().last_active, 140);
}

#[test]
fn each_listener_has_an_aggregate_of_their_own() {
    let alice = track_key(1);
    let bob = track_key(2);
    let carol = track_key(3);
    let mut ledger = ledger_with(&[alice, bob, carol]);
    let track = make_track(&mut ledger, &alice, "Song");
    program::play_track(&mut ledger, &bob, &track, 10, 5).unwrap();
    program::play_track(&mut ledger, &carol, &track, 20, 6).unwrap();
    program::play_track(&mut ledger, &bob, &track, 30, 7).unwrap();
    let b = PlayTrack::resolve(&ledger.program_id, &bob, &track, &alice).unwrap();
    let c = PlayTrack::resolve(&ledger.program_id, &carol, &track, &alice).unwrap();
    assert_eq!(ledger.track_plays.get(&b.track_play).unwrap().play_count, 2);
    assert_eq!(ledger.track_plays.get(&b.track_play).unwrap().total_duration, 40);
    assert_eq!(ledger.track_plays.get(&c.track_play).unwrap().play_count, 1);
    assert_eq!(ledger.track_plays.get(&c.track_play).unwrap().total_duration, 20);
    assert_eq!(ledger.tracks.get(&track).unwrap().plays_count, 3);
}

#[test]
fn creator_playing_their_own_track_updates_one_statistics_record() {
    let alice = track_key(1);
    let mut ledger = ledger_with(&[alice]);
    let track = make_track(&mut ledger, &alice, "Song");
    assert_eq!(program::play_track(&mut ledger, &alice, &track, 10, 77), Ok(()));
    let ctx = PlayTrack::resolve(&ledger.program_id, &alice, &track, &alice).unwrap();
    assert_eq!(ctx.user_stats, ctx.creator_stats);
    let stats = ledger.stats.get(&ctx.user_stats).unwrap();
    assert_eq!(stats.total_plays, 1);
    assert_eq!(stats.last_active, 77);
}

#[test]
fn play_of_a_missing_track_is_not_found() {
    let bob = track_key(2);
    let mut ledger = ledger_with(&[bob]);
    let r = program::play_track(&mut ledger, &bob, &track_key(50), 10, 5);
    assert_eq!(r, Err(LedgerError::NotFound));
}

#[test]
fn play_count_at_maximum_refuses_one_more_play() {
    let alice = track_key(1);
    let bob = track_key(2);
    let mut ledger = ledger_with(&[alice, bob]);
    let track = make_track(&mut ledger, &alice, "Song");
    let mut full = ledger.tracks.take(&track).unwrap();
    full.plays_count = u64::MAX;
    ledger.tracks.put(track, full);
    let ctx = PlayTrack::resolve(&ledger.program_id, &bob, &track, &alice).unwrap();
    let r = play_track(&mut ledger, &ctx, 10, 5);
    assert_eq!(r, Err(LedgerError::Program(SpotifyError::ArithmeticOverflow)));
    assert_eq!(ledger.tracks.get(&track).unwrap().plays_count, u64::MAX);
    assert!(!ledger.track_plays.contains(&ctx.track_play));
    assert_eq!(ledger.stats.get(&ctx.creator_stats).unwrap().total_plays, 0);
    assert_eq!(ledger.stats.get(&ctx.user_stats).unwrap().last_active, 1);
}

#[test]
fn total_duration_overflow_refuses_the_play() {
    let track = track_key(7);
    let user = track_key(8);
    let existing = TrackPlay {
        track,
        user,
        play_count: 3,
        total_duration: u64::MAX - 5,
        first_played_at: 1,
        last_played_at: 2,
    };
    assert_eq!(
        advance_play(Some(&existing), track, user, 6, 9),
        Err(SpotifyError::ArithmeticOverflow)
    );
    assert_eq!(
        advance_play(Some(&existing), track, user, 5, 9),
        Ok(TrackPlay {
            track,
            user,
            play_count: 4,
            total_duration: u64::MAX,
            first_played_at: 1,
            last_played_at: 9,
        })
    );
    assert_eq!(
        advance_play(None, track, user, 5, 9),
        Ok(TrackPlay {
            track,
            user,
            play_count: 1,
            total_duration: 5,
            first_played_at: 9,
            last_played_at: 9,
        })
    );
}
