use spotify_dapp::address::Address;
use spotify_dapp::errors::{LedgerError, SpotifyError};
use spotify_dapp::instructions::playlist::{
    add_collaborator, add_track_to_playlist, validate_playlist, AddCollaborator,
    AddTrackToPlaylist, CreatePlaylist,
};
use spotify_dapp::ledger::Ledger;
use spotify_dapp::permission::{authorize, can_mutate, check_permissions, Capability};
use spotify_dapp::program;
use spotify_dapp::state::{Playlist, PlaylistCollaborator, PlaylistTrack};

fn id(n: u8) -> Address {
    Address::new([n; 32])
}

fn setup(owner: &Address, collaborative: bool) -> (Ledger, Address) {
    let mut ledger = Ledger::new(id(200));
    program::create_user_profile(
        &mut ledger,
        owner,
        "owner".to_string(),
        String::new(),
        String::new(),
        String::new(),
        1,
    )
    .unwrap();
    program::create_playlist(
        &mut ledger,
        owner,
        "Mix".to_string(),
        "My mix".to_string(),
        true,
        collaborative,
        2,
    )
    .unwrap();
    let playlist = CreatePlaylist::resolve(&ledger.program_id, owner, &"Mix".to_string())
        .unwrap()
        .playlist;
    (ledger, playlist)
}

fn n(count: usize) -> String {
    "p".repeat(count)
}

#[test]
fn playlist_fields_are_checked_in_order() {
    assert_eq!(validate_playlist(&n(65), &n(257)), Err(SpotifyError::PlaylistNameTooLong));
    assert_eq!(validate_playlist(&n(0), &n(257)), Err(SpotifyError::PlaylistNameEmpty));
    assert_eq!(validate_playlist(&n(64), &n(257)), Err(SpotifyError::PlaylistDescriptionTooLong));
    assert_eq!(validate_playlist(&n(64), &n(256)), Ok(()));
    assert_eq!(validate_playlist(&n(1), &n(0)), Ok(()));
}

#[test]
fn created_playlist_is_empty() {
    let owner = id(1);
    let (ledger, playlist) = setup(&owner, false);
    assert_eq!(
        *ledger.playlists.get(&playlist).unwrap(),
        Playlist {
            authority: owner,
            name: "Mix".to_string(),
            description: "My mix".to_string(),
            is_public: true,
            tracks_count: 0,
            likes_count: 0,
            plays_count: 0,
            is_collaborative: false,
            created_at: 2,
            updated_at: 2,
        }
    );
    let ctx = CreatePlaylist::resolve(&ledger.program_id, &owner, &"Mix".to_string()).unwrap();
    assert_eq!(ledger.stats.get(&ctx.user_stats).unwrap().playlists_created, 1);
}

#[test]
fn playlist_name_is_unique_per_owner() {
    let owner = id(1);
    let (mut ledger, _) = setup(&owner, false);
    let again = program::create_playlist(&mut ledger, &owner, "Mix".to_string(), String::new(), false, false, 3);
    assert_eq!(again, Err(LedgerError::AlreadyExists));
    let other = program::create_playlist(&mut ledger, &owner, "Mix 2".to_string(), String::new(), false, false, 3);
    assert_eq!(other, Ok(()));
}

#[test]
fn playlist_name_longer_than_a_seed_has_no_address() {
    let owner = id(1);
    let (mut ledger, _) = setup(&owner, false);
    let r = program::create_playlist(&mut ledger, &owner, n(33), String::new(), false, false, 3);
    assert_eq!(r, Err(LedgerError::AddressUnavailable));
    let r = program::create_playlist(&mut ledger, &owner, n(32), String::new(), false, false, 3);
    assert_eq!(r, Ok(()));
}

#[test]
fn three_tracks_take_positions_zero_one_two() {
    let owner = id(1);
    let (mut ledger, playlist) = setup(&owner, false);
    let tracks = [id(10), id(11), id(12)];
    for (i, t) in tracks.iter().enumerate() {
        let r = program::add_track_to_playlist(&mut ledger, &owner, &playlist, t, 10 + i as i64);
        assert_eq!(r, Ok(()));
    }
    for (i, t) in tracks.iter().enumerate() {
        let ctx = AddTrackToPlaylist::resolve(&ledger.program_id, &owner, &playlist, t).unwrap();
        assert_eq!(
            *ledger.playlist_tracks.get(&ctx.playlist_track).unwrap(),
            PlaylistTrack {
                playlist,
                track: *t,
                added_by: owner,
                added_at: 10 + i as i64,
                position: i as u64,
            }
        );
    }
    let stored = ledger.playlists.get(&playlist).unwrap();
    assert_eq!(stored.tracks_count, 3);
    assert_eq!(stored.updated_at, 12);
    assert_eq!(stored.created_at, 2);
}

#[test]
fn one_track_enters_a_playlist_once() {
    let owner = id(1);
    let (mut ledger, playlist) = setup(&owner, false);
    assert_eq!(program::add_track_to_playlist(&mut ledger, &owner, &playlist, &id(10), 5), Ok(()));
    assert_eq!(
        program::add_track_to_playlist(&mut ledger, &owner, &playlist, &id(10), 6),
        Err(LedgerError::AlreadyExists)
    );
    assert_eq!(ledger.playlists.get(&playlist).unwrap().tracks_count, 1);
    assert_eq!(ledger.playlists.get(&playlist).unwrap().updated_at, 5);
}

#[test]
fn stranger_cannot_add_to_a_closed_playlist() {
    let owner = id(1);
    let stranger = id(2);
    let (mut ledger, playlist) = setup(&owner, false);
    let r = program::add_track_to_playlist(&mut ledger, &stranger, &playlist, &id(10), 5);
    assert_eq!(r, Err(LedgerError::Program(SpotifyError::NoPermissionToAddTrack)));
    assert_eq!(ledger.playlists.get(&playlist).unwrap().tracks_count, 0);
}

#[test]
fn anyone_can_add_to_a_collaborative_playlist() {
    let owner = id(1);
    let stranger = id(2);
    let (mut ledger, playlist) = setup(&owner, true);
    let r = program::add_track_to_playlist(&mut ledger, &stranger, &playlist, &id(10), 5);
    assert_eq!(r, Ok(()));
    let ctx = AddTrackToPlaylist::resolve(&ledger.program_id, &stranger, &playlist, &id(10)).unwrap();
    assert_eq!(ledger.playlist_tracks.get(&ctx.playlist_track).unwrap().added_by, stranger);
}

#[test]
fn add_only_collaborator_can_add_but_not_remove() {
    let owner = id(1);
    let friend = id(2);
    let (mut ledger, playlist) = setup(&owner, false);
    let r = program::add_collaborator(&mut ledger, &owner, &playlist, &friend, 1, 4);
    assert_eq!(r, Ok(()));
    let r = program::add_track_to_playlist(&mut ledger, &friend, &playlist, &id(10), 5);
    assert_eq!(r, Ok(()));
    let edge_at = AddCollaborator::resolve(&ledger.program_id, &owner, &playlist, &friend)
        .unwrap()
        .playlist_collaborator;
    let edge = ledger.collaborators.get(&edge_at).unwrap();
    assert_eq!(
        *edge,
        PlaylistCollaborator { playlist, user: friend, permissions: 1, added_at: 4 }
    );
    let stored = ledger.playlists.get(&playlist).unwrap();
    assert_eq!(authorize(stored, &playlist, &friend, Some(edge), Capability::AddTracks), Ok(()));
    assert_eq!(
        authorize(stored, &playlist, &friend, Some(edge), Capability::RemoveTracks),
        Err(SpotifyError::NoPermissionToRemoveTrack)
    );
    assert_eq!(
        authorize(stored, &playlist, &friend, Some(edge), Capability::EditInfo),
        Err(SpotifyError::NoPermissionToEditPlaylist)
    );
}

#[test]
fn each_bit_grants_its_own_capability() {
    let owner = id(1);
    let friend = id(2);
    let (ledger, playlist) = setup(&owner, false);
    let stored = ledger.playlists.get(&playlist).unwrap();
    let caps = [Capability::AddTracks, Capability::RemoveTracks, Capability::EditInfo];
    for mask in 0u8..=7 {
        let edge = PlaylistCollaborator { playlist, user: friend, permissions: mask, added_at: 0 };
        for (i, cap) in caps.iter().enumerate() {
            let expected = mask & (1 << i) != 0;
            assert_eq!(can_mutate(stored, &playlist, &friend, Some(&edge), *cap), expected);
        }
    }
}

#[test]
fn an_edge_for_another_user_or_playlist_grants_nothing() {
    let owner = id(1);
    let friend = id(2);
    let (ledger, playlist) = setup(&owner, false);
    let stored = ledger.playlists.get(&playlist).unwrap();
    let for_other_user = PlaylistCollaborator { playlist, user: id(3), permissions: 7, added_at: 0 };
    let for_other_list = PlaylistCollaborator { playlist: id(99), user: friend, permissions: 7, added_at: 0 };
    assert!(!can_mutate(stored, &playlist, &friend, Some(&for_other_user), Capability::AddTracks));
    assert!(!can_mutate(stored, &playlist, &friend, Some(&for_other_list), Capability::AddTracks));
    assert!(!can_mutate(stored, &playlist, &friend, None, Capability::AddTracks));
    assert!(can_mutate(stored, &playlist, &owner, None, Capability::RemoveTracks));
    assert!(can_mutate(stored, &playlist, &owner, None, Capability::EditInfo));
}

#[test]
fn collaborative_flag_grants_adding_only() {
    let owner = id(1);
    let stranger = id(2);
    let (ledger, playlist) = setup(&owner, true);
    let stored = ledger.playlists.get(&playlist).unwrap();
    assert!(can_mutate(stored, &playlist, &stranger, None, Capability::AddTracks));
    assert!(!can_mutate(stored, &playlist, &stranger, None, Capability::RemoveTracks));
    assert!(!can_mutate(stored, &playlist, &stranger, None, Capability::EditInfo));
}

#[test]
fn permission_bitmask_above_seven_is_invalid() {
    assert_eq!(check_permissions(7), Ok(()));
    assert_eq!(check_permissions(0), Ok(()));
    assert_eq!(check_permissions(8), Err(SpotifyError::InvalidPermissions));
    assert_eq!(check_permissions(255), Err(SpotifyError::InvalidPermissions));
    let owner = id(1);
    let (mut ledger, playlist) = setup(&owner, false);
    let r = program::add_collaborator(&mut ledger, &owner, &playlist, &id(2), 8, 4);
    assert_eq!(r, Err(LedgerError::Program(SpotifyError::InvalidPermissions)));
}

#[test]
fn only_the_owner_names_collaborators() {
    let owner = id(1);
    let mallory = id(9);
    let (mut ledger, playlist) = setup(&owner, true);
    let r = program::add_collaborator(&mut ledger, &mallory, &playlist, &mallory, 7, 4);
    assert_eq!(r, Err(LedgerError::Program(SpotifyError::Unauthorized)));
    let ctx = AddCollaborator::resolve(&ledger.program_id, &mallory, &playlist, &mallory).unwrap();
    assert!(!ledger.collaborators.contains(&ctx.playlist_collaborator));
}

#[test]
fn collaborator_is_named_once() {
    let owner = id(1);
    let (mut ledger, playlist) = setup(&owner, false);
    let ctx = AddCollaborator::resolve(&ledger.program_id, &owner, &playlist, &id(2)).unwrap();
    assert_eq!(add_collaborator(&mut ledger, &ctx, 3, 4), Ok(()));
    assert_eq!(add_collaborator(&mut ledger, &ctx, 7, 5), Err(LedgerError::AlreadyExists));
    assert_eq!(ledger.collaborators.get(&ctx.playlist_collaborator).unwrap().permissions, 3);
}

#[test]
fn collaborator_on_a_missing_playlist_is_not_found() {
    let mut ledger = Ledger::new(id(200));
    let r = program::add_collaborator(&mut ledger, &id(1), &id(50), &id(2), 1, 4);
    assert_eq!(r, Err(LedgerError::NotFound));
    let r = program::add_track_to_playlist(&mut ledger, &id(1), &id(50), &id(10), 4);
    assert_eq!(r, Err(LedgerError::NotFound));
}

#[test]
fn full_playlist_refuses_one_more_track() {
    let owner = id(1);
    let (mut ledger, playlist) = setup(&owner, false);
    let mut full = ledger.playlists.take(&playlist).unwrap();
    full.tracks_count = u64::MAX;
    ledger.playlists.put(playlist, full);
    let ctx = AddTrackToPlaylist::resolve(&ledger.program_id, &owner, &playlist, &id(10)).unwrap();
    let r = add_track_to_playlist(&mut ledger, &ctx, 5);
    assert_eq!(r, Err(LedgerError::Program(SpotifyError::ArithmeticOverflow)));
    assert_eq!(ledger.playlists.get(&playlist).unwrap().tracks_count, u64::MAX);
    assert_eq!(ledger.playlists.get(&playlist).unwrap().updated_at, 2);
    assert!(!ledger.playlist_tracks.contains(&ctx.playlist_track));
}

#[test]
fn add_only_collaborator_is_refused_removal_on_the_ledger() {
    let owner = id(1);
    let friend = id(2);
    let stranger = id(3);
    let (mut ledger, playlist) = setup(&owner, false);
    program::add_collaborator(&mut ledger, &owner, &playlist, &friend, 1, 4).unwrap();
    assert_eq!(program::require_capability(&ledger, &friend, &playlist, Capability::AddTracks), Ok(()));
    assert_eq!(
        program::require_capability(&ledger, &friend, &playlist, Capability::RemoveTracks),
        Err(LedgerError::Program(SpotifyError::NoPermissionToRemoveTrack))
    );
    assert_eq!(
        program::require_capability(&ledger, &friend, &playlist, Capability::EditInfo),
        Err(LedgerError::Program(SpotifyError::NoPermissionToEditPlaylist))
    );
    assert_eq!(
        program::require_capability(&ledger, &stranger, &playlist, Capability::AddTracks),
        Err(LedgerError::Program(SpotifyError::NoPermissionToAddTrack))
    );
    assert_eq!(program::require_capability(&ledger, &owner, &playlist, Capability::RemoveTracks), Ok(()));
    assert_eq!(
        program::require_capability(&ledger, &owner, &id(77), Capability::RemoveTracks),
        Err(LedgerError::NotFound)
    );
}
