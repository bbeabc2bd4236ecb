use spotify_dapp::address::Address;
use spotify_dapp::errors::{ErrorKind, LedgerError, SpotifyError};
use spotify_dapp::instructions::user::{
    create_user_profile, update_user_profile, validate_profile, validate_update,
    CreateUserProfile, UpdateUserProfile,
};
use spotify_dapp::ledger::Ledger;
use spotify_dapp::program;

fn user_key(n: u8) -> Address {
    Address::new([n; 32])
}

fn new_ledger() -> Ledger {
    Ledger::new(user_key(200))
}

fn text(n: usize) -> String {
    "a".repeat(n)
}

#[test]
fn username_of_32_bytes_is_accepted() {
    assert_eq!(validate_profile(&text(32), &text(0), &text(0), &text(0)), Ok(()));
    let mut ledger = new_ledger();
    let alice = user_key(1);
    let r = program::create_user_profile(&mut ledger, &alice, text(32), text(64), text(256), text(256), 5);
    assert_eq!(r, Ok(()));
}

#[test]
fn username_of_33_bytes_is_too_long() {
    assert_eq!(
        validate_profile(&text(33), &text(0), &text(0), &text(0)),
        Err(SpotifyError::UsernameTooLong)
    );
    let mut ledger = new_ledger();
    let alice = user_key(1);
    let r = program::create_user_profile(&mut ledger, &alice, text(33), text(1), text(1), text(1), 5);
    assert_eq!(r, Err(LedgerError::Program(SpotifyError::UsernameTooLong)));
    let ctx = CreateUserProfile::resolve(&ledger.program_id, &alice).unwrap();
    assert!(!ledger.profiles.contains(&ctx.user_profile));
    assert!(!ledger.stats.contains(&ctx.user_stats));
}

#[test]
fn empty_username_is_refused() {
    assert_eq!(
        validate_profile(&text(0), &text(0), &text(0), &text(0)),
        Err(SpotifyError::UsernameEmpty)
    );
}

#[test]
fn username_length_counts_bytes_not_characters() {
    let sixteen_two_byte_chars = "é".repeat(16);
    assert_eq!(sixteen_two_byte_chars.len(), 32);
    assert_eq!(validate_profile(&sixteen_two_byte_chars, &text(0), &text(0), &text(0)), Ok(()));
    let seventeen = "é".repeat(17);
    assert_eq!(
        validate_profile(&seventeen, &text(0), &text(0), &text(0)),
        Err(SpotifyError::UsernameTooLong)
    );
}

#[test]
fn profile_fields_are_checked_in_order() {
    assert_eq!(
        validate_profile(&text(33), &text(65), &text(257), &text(257)),
        Err(SpotifyError::UsernameTooLong)
    );
    assert_eq!(
        validate_profile(&text(5), &text(65), &text(257), &text(257)),
        Err(SpotifyError::DisplayNameTooLong)
    );
    assert_eq!(
        validate_profile(&text(5), &text(64), &text(257), &text(257)),
        Err(SpotifyError::BioTooLong)
    );
    assert_eq!(
        validate_profile(&text(5), &text(64), &text(256), &text(257)),
        Err(SpotifyError::ProfileImageUrlTooLong)
    );
    assert_eq!(validate_profile(&text(5), &text(64), &text(256), &text(256)), Ok(()));
}

#[test]
fn created_profile_starts_at_zero() {
    let mut ledger = new_ledger();
    let alice = user_key(1);
    let r = program::create_user_profile(
        &mut ledger,
        &alice,
        "alice".to_string(),
        "Alice".to_string(),
        "hello".to_string(),
        "https://img".to_string(),
        42,
    );
    assert_eq!(r, Ok(()));
    let ctx = CreateUserProfile::resolve(&ledger.program_id, &alice).unwrap();
    let profile = ledger.profiles.get(&ctx.user_profile).unwrap();
    assert_eq!(profile.authority, alice);
    assert_eq!(profile.username, "alice");
    assert_eq!(profile.display_name, "Alice");
    assert_eq!(profile.bio, "hello");
    assert_eq!(profile.profile_image, "https://img");
    assert_eq!(profile.followers_count, 0);
    assert_eq!(profile.following_count, 0);
    assert_eq!(profile.created_at, 42);
    let stats = ledger.stats.get(&ctx.user_stats).unwrap();
    assert_eq!(stats.user, ctx.user_profile);
    assert_eq!(stats.tracks_created, 0);
    assert_eq!(stats.playlists_created, 0);
    assert_eq!(stats.total_likes_received, 0);
    assert_eq!(stats.total_plays, 0);
    assert_eq!(stats.last_active, 42);
}

#[test]
fn second_profile_for_one_identity_is_refused() {
    let mut ledger = new_ledger();
    let alice = user_key(1);
    let first = program::create_user_profile(&mut ledger, &alice, text(3), text(1), text(1), text(1), 1);
    assert_eq!(first, Ok(()));
    let second = program::create_user_profile(&mut ledger, &alice, text(4), text(1), text(1), text(1), 2);
    assert_eq!(second, Err(LedgerError::AlreadyExists));
    let ctx = CreateUserProfile::resolve(&ledger.program_id, &alice).unwrap();
    assert_eq!(ledger.profiles.get(&ctx.user_profile).unwrap().username, text(3));
}

#[test]
fn validation_comes_before_the_existence_check() {
    let mut ledger = new_ledger();
    let alice = user_key(1);
    let ctx = CreateUserProfile::resolve(&ledger.program_id, &alice).unwrap();
    assert_eq!(create_user_profile(&mut ledger, &ctx, text(3), text(1), text(1), text(1), 1), Ok(()));
    assert_eq!(
        create_user_profile(&mut ledger, &ctx, text(0), text(1), text(1), text(1), 1),
        Err(LedgerError::Program(SpotifyError::UsernameEmpty))
    );
}

#[test]
fn update_replaces_only_the_fields_given() {
    let mut ledger = new_ledger();
    let alice = user_key(1);
    program::create_user_profile(
        &mut ledger,
        &alice,
        "alice".to_string(),
        "Alice".to_string(),
        "old bio".to_string(),
        "old image".to_string(),
        10,
    )
    .unwrap();
    let r = program::update_user_profile(&mut ledger, &alice, None, Some("new bio".to_string()), None, 20);
    assert_eq!(r, Ok(()));
    let ctx = UpdateUserProfile::resolve(&ledger.program_id, &alice).unwrap();
    let profile = ledger.profiles.get(&ctx.user_profile).unwrap();
    assert_eq!(profile.username, "alice");
    assert_eq!(profile.display_name, "Alice");
    assert_eq!(profile.bio, "new bio");
    assert_eq!(profile.profile_image, "old image");
    assert_eq!(profile.created_at, 10);
    assert_eq!(ledger.stats.get(&ctx.user_stats).unwrap().last_active, 20);
}

#[test]
fn update_checks_every_field_before_changing_any() {
    let mut ledger = new_ledger();
    let alice = user_key(1);
    program::create_user_profile(&mut ledger, &alice, text(3), text(2), text(2), text(2), 10).unwrap();
    let r = program::update_user_profile(
        &mut ledger,
        &alice,
        Some("fine".to_string()),
        Some(text(257)),
        None,
        20,
    );
    assert_eq!(r, Err(LedgerError::Program(SpotifyError::BioTooLong)));
    let ctx = UpdateUserProfile::resolve(&ledger.program_id, &alice).unwrap();
    assert_eq!(ledger.profiles.get(&ctx.user_profile).unwrap().display_name, text(2));
    assert_eq!(ledger.stats.get(&ctx.user_stats).unwrap().last_active, 10);
}

#[test]
fn update_errors_by_field() {
    assert_eq!(validate_update(&Some(text(65)), &None, &None), Err(SpotifyError::DisplayNameTooLong));
    assert_eq!(validate_update(&Some(text(64)), &Some(text(257)), &None), Err(SpotifyError::BioTooLong));
    assert_eq!(
        validate_update(&None, &Some(text(256)), &Some(text(257))),
        Err(SpotifyError::ProfileImageUrlTooLong)
    );
    assert_eq!(validate_update(&None, &None, &None), Ok(()));
}

#[test]
fn update_of_a_missing_profile_is_not_found() {
    let mut ledger = new_ledger();
    let alice = user_key(1);
    let r = program::update_user_profile(&mut ledger, &alice, None, None, None, 20);
    assert_eq!(r, Err(LedgerError::NotFound));
}

#[test]
fn update_by_another_identity_is_unauthorized() {
    let mut ledger = new_ledger();
    let alice = user_key(1);
    let mallory = user_key(9);
    program::create_user_profile(&mut ledger, &alice, text(3), text(2), text(2), text(2), 10).unwrap();
    let ctx = UpdateUserProfile::resolve(&ledger.program_id, &alice).unwrap();
    let forged = UpdateUserProfile { authority: mallory, ..ctx };
    let r = update_user_profile(&mut ledger, &forged, Some("x".to_string()), None, None, 20);
    assert_eq!(r, Err(LedgerError::Program(SpotifyError::Unauthorized)));
    assert_eq!(ledger.profiles.get(&ctx.user_profile).unwrap().display_name, text(2));
}

#[test]
fn errors_fall_into_families() {
    assert_eq!(SpotifyError::UsernameTooLong.kind(), ErrorKind::Validation);
    assert_eq!(SpotifyError::InvalidDuration.kind(), ErrorKind::Validation);
    assert_eq!(SpotifyError::InvalidScore.kind(), ErrorKind::Validation);
    assert_eq!(SpotifyError::InvalidPermissions.kind(), ErrorKind::Validation);
    assert_eq!(SpotifyError::ArithmeticOverflow.kind(), ErrorKind::Arithmetic);
    assert_eq!(SpotifyError::ArithmeticUnderflow.kind(), ErrorKind::Arithmetic);
    assert_eq!(SpotifyError::AlreadyLikedTrack.kind(), ErrorKind::Relationship);
    assert_eq!(SpotifyError::CannotFollowSelf.kind(), ErrorKind::Relationship);
    assert_eq!(SpotifyError::NoPermissionToRemoveTrack.kind(), ErrorKind::Permission);
    assert_eq!(SpotifyError::Unauthorized.kind(), ErrorKind::Permission);
    assert_eq!(SpotifyError::NotImplemented.kind(), ErrorKind::Request);
    assert_eq!(SpotifyError::InvalidAccount.kind(), ErrorKind::Request);
}

#[test]
fn errors_explain_themselves() {
    assert_eq!(SpotifyError::UsernameTooLong.message(), "Username cannot be longer than 32 characters");
    assert_eq!(SpotifyError::UsernameEmpty.message(), "Username cannot be empty");
    assert_eq!(SpotifyError::InvalidDuration.message(), "Duration must be greater than 0");
    assert_eq!(SpotifyError::ArithmeticOverflow.message(), "Arithmetic overflow");
    assert_eq!(SpotifyError::CannotFollowSelf.message(), "Cannot follow yourself");
    assert_eq!(SpotifyError::AlreadyLikedTrack.message(), "Already liked this track");
    assert_eq!(
        SpotifyError::NoPermissionToRemoveTrack.message(),
        "No permission to remove track from this playlist"
    );
    assert_eq!(SpotifyError::InvalidScore.message(), "Score must be between 0.0 and 1.0");
    assert_eq!(SpotifyError::Unauthorized.message(), "Unauthorized action");
}

#[test]
fn ledger_errors_fall_into_families() {
    assert_eq!(LedgerError::AlreadyExists.kind(), ErrorKind::Relationship);
    assert_eq!(LedgerError::NotFound.kind(), ErrorKind::Relationship);
    assert_eq!(LedgerError::AddressUnavailable.kind(), ErrorKind::Request);
    assert_eq!(LedgerError::FieldTooLong.kind(), ErrorKind::Validation);
    assert_eq!(LedgerError::Program(SpotifyError::ArithmeticOverflow).kind(), ErrorKind::Arithmetic);
    assert_eq!(LedgerError::Program(SpotifyError::Unauthorized).kind(), ErrorKind::Permission);
}
