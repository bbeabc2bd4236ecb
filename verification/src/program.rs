//! The operations as a caller names them: by identities and keys.
//!
//! Each entry point derives the addresses of the records it touches and then
//! takes the step of the operation on them. A key without an address is
//! refused before anything is read.

use crate::address::Address;
use crate::errors::LedgerError;
use crate::instructions::analytics::{
    create_recommendation_step, generate_user_insights_step, CreateRecommendation,
    GenerateUserInsights, InsightSource,
};
use crate::instructions::playlist::{
    add_collaborator_step, add_track_to_playlist_step, capability_check, create_playlist_step,
    AddCollaborator, AddTrackToPlaylist, CreatePlaylist,
};
use crate::instructions::search::{store_search_index_step, CreateSearchIndex};
use crate::instructions::social::{
    follow_user_step, like_track_step, unfollow_user_step, unlike_track_step, FollowUser,
    LikeTrack, UnfollowUser, UnlikeTrack,
};
use crate::instructions::track::{create_track_step, play_track_step, CreateTrack, PlayTrack};
use crate::instructions::user::{
    create_user_profile_step, optional_text, update_user_profile_step, CreateUserProfile,
    UpdateUserProfile,
};
use crate::ledger::{commits, Ledger, LedgerState};
use crate::namespace::{address_of, find_address, key2, Namespace};
use crate::permission::Capability;
use crate::text::{lowercase, to_lowercase};
use vstd::prelude::*;

verus! {

/// The step on the records that `resolution` names, or the refusal of a key
/// that has no address.
pub open spec fn on_resolved<C>(
    resolution: Option<C>,
    step: spec_fn(C) -> Result<LedgerState, LedgerError>,
) -> Result<LedgerState, LedgerError> {
    match resolution {
        Some(ctx) => step(ctx),
        None => Err(LedgerError::AddressUnavailable),
    }
}

/// What creating the profile of `authority` makes of the ledger.
pub open spec fn create_user_profile_outcome(
    s: LedgerState,
    authority: Seq<u8>,
    username: Seq<char>,
    display_name: Seq<char>,
    bio: Seq<char>,
    profile_image: Seq<char>,
    now: i64,
) -> Result<LedgerState, LedgerError> {
    on_resolved(
        CreateUserProfile::resolution(s.program_id, authority),
        |ctx: CreateUserProfile|
            create_user_profile_step(s, ctx, username, display_name, bio, profile_image, now),
    )
}

/// Creates the profile and statistics of `authority`.
pub fn create_user_profile(
    ledger: &mut Ledger,
    authority: &Address,
    username: String,
    display_name: String,
    bio: String,
    profile_image: String,
    now: i64,
) -> (r: Result<(), LedgerError>)
    requires
        old(ledger).wf(),
    ensures
        final(ledger).wf(),
        commits(
            old(ledger)@,
            create_user_profile_outcome(
                old(ledger)@,
                authority@,
                username@,
                display_name@,
                bio@,
                profile_image@,
                now,
            ),
            r,
            final(ledger)@,
        ),
        old(ledger)@.valid() ==> final(ledger)@.valid(),
{
    match CreateUserProfile::resolve(&ledger.program_id, authority) {
        Some(ctx) => crate::instructions::user::create_user_profile(
            ledger,
            &ctx,
            username,
            display_name,
            bio,
            profile_image,
            now,
        ),
        None => Err(LedgerError::AddressUnavailable),
    }
}

/// What editing the profile of `authority` makes of the ledger.
pub open spec fn update_user_profile_outcome(
    s: LedgerState,
    authority: Seq<u8>,
    display_name: Option<Seq<char>>,
    bio: Option<Seq<char>>,
    profile_image: Option<Seq<char>>,
    now: i64,
) -> Result<LedgerState, LedgerError> {
    on_resolved(
        UpdateUserProfile::resolution(s.program_id, authority),
        |ctx: UpdateUserProfile|
            update_user_profile_step(s, ctx, display_name, bio, profile_image, now),
    )
}

/// Edits the profile of `authority`.
pub fn update_user_profile(
    ledger: &mut Ledger,
    authority: &Address,
    display_name: Option<String>,
    bio: Option<String>,
    profile_image: Option<String>,
    now: i64,
) -> (r: Result<(), LedgerError>)
    requires
        old(ledger).wf(),
    ensures
        final(ledger).wf(),
        commits(
            old(ledger)@,
            update_user_profile_outcome(
                old(ledger)@,
                authority@,
                optional_text(display_name),
                optional_text(bio),
                optional_text(profile_image),
                now,
            ),
            r,
            final(ledger)@,
        ),
        old(ledger)@.valid() ==> final(ledger)@.valid(),
{
    match UpdateUserProfile::resolve(&ledger.program_id, authority) {
        Some(ctx) => crate::instructions::user::update_user_profile(
            ledger,
            &ctx,
            display_name,
            bio,
            profile_image,
            now,
        ),
        None => Err(LedgerError::AddressUnavailable),
    }
}

/// What creating a track of `authority` makes of the ledger.
pub open spec fn create_track_outcome(
    s: LedgerState,
    authority: Seq<u8>,
    title: Seq<char>,
    artist: Seq<char>,
    album: Seq<char>,
    genre: Seq<char>,
    duration: u64,
    audio_url: Seq<char>,
    cover_image: Seq<char>,
    now: i64,
) -> Result<LedgerState, LedgerError> {
    on_resolved(
        CreateTrack::resolution(s.program_id, authority, title, artist),
        |ctx: CreateTrack|
            create_track_step(
                s,
                ctx,
                title,
                artist,
                album,
                genre,
                duration,
                audio_url,
                cover_image,
                now,
            ),
    )
}

/// Creates a track of `authority`.
pub fn create_track(
    ledger: &mut Ledger,
    authority: &Address,
    title: String,
    artist: String,
    album: String,
    genre: String,
    duration: u64,
    audio_url: String,
    cover_image: String,
    now: i64,
) -> (r: Result<(), LedgerError>)
    requires
        old(ledger).wf(),
    ensures
        final(ledger).wf(),
        commits(
            old(ledger)@,
            create_track_outcome(
                old(ledger)@,
                authority@,
                title@,
                artist@,
                album@,
                genre@,
                duration,
                audio_url@,
                cover_image@,
                now,
            ),
            r,
            final(ledger)@,
        ),
        old(ledger)@.valid() ==> final(ledger)@.valid(),
{
    match CreateTrack::resolve(&ledger.program_id, authority, &title, &artist) {
        Some(ctx) => crate::instructions::track::create_track(
            ledger,
            &ctx,
            title,
            artist,
            album,
            genre,
            duration,
            audio_url,
            cover_image,
            now,
        ),
        None => Err(LedgerError::AddressUnavailable),
    }
}

/// What a play of the track at `track` by `user` makes of the ledger. The
/// track must exist: its creator is part of the key.
pub open spec fn play_track_outcome(
    s: LedgerState,
    user: Seq<u8>,
    track: Seq<u8>,
    duration_played: u64,
    now: i64,
) -> Result<LedgerState, LedgerError> {
    if !s.tracks.contains_key(track) {
        Err(LedgerError::NotFound)
    } else {
        on_resolved(
            PlayTrack::resolution(s.program_id, user, track, s.tracks[track].created_by@),
            |ctx: PlayTrack| play_track_step(s, ctx, duration_played, now),
        )
    }
}

/// Records one play of the track at `track` by `user`.
pub fn play_track(
    ledger: &mut Ledger,
    user: &Address,
    track: &Address,
    duration_played: u64,
    now: i64,
) -> (r: Result<(), LedgerError>)
    requires
        old(ledger).wf(),
    ensures
        final(ledger).wf(),
        commits(
            old(ledger)@,
            play_track_outcome(old(ledger)@, user@, track@, duration_played, now),
            r,
            final(ledger)@,
        ),
        old(ledger)@.valid() ==> final(ledger)@.valid(),
{
    let creator = match ledger.tracks.get(track) {
        Some(t) => t.created_by,
        None => {
            return Err(LedgerError::NotFound);
        },
    };
    match PlayTrack::resolve(&ledger.program_id, user, track, &creator) {
        Some(ctx) => crate::instructions::track::play_track(ledger, &ctx, duration_played, now),
        None => Err(LedgerError::AddressUnavailable),
    }
}

/// What creating a playlist of `authority` makes of the ledger.
pub open spec fn create_playlist_outcome(
    s: LedgerState,
    authority: Seq<u8>,
    name: Seq<char>,
    description: Seq<char>,
    is_public: bool,
    is_collaborative: bool,
    now: i64,
) -> Result<LedgerState, LedgerError> {
    on_resolved(
        CreatePlaylist::resolution(s.program_id, authority, name),
        |ctx: CreatePlaylist|
            create_playlist_step(s, ctx, name, description, is_public, is_collaborative, now),
    )
}

/// Creates a playlist of `authority`.
pub fn create_playlist(
    ledger: &mut Ledger,
    authority: &Address,
    name: String,
    description: String,
    is_public: bool,
    is_collaborative: bool,
    now: i64,
) -> (r: Result<(), LedgerError>)
    requires
        old(ledger).wf(),
    ensures
        final(ledger).wf(),
        commits(
            old(ledger)@,
            create_playlist_outcome(
                old(ledger)@,
                authority@,
                name@,
                description@,
                is_public,
                is_collaborative,
                now,
            ),
            r,
            final(ledger)@,
        ),
        old(ledger)@.valid() ==> final(ledger)@.valid(),
{
    match CreatePlaylist::resolve(&ledger.program_id, authority, &name) {
        Some(ctx) => crate::instructions::playlist::create_playlist(
            ledger,
            &ctx,
            name,
            description,
            is_public,
            is_collaborative,
            now,
        ),
        None => Err(LedgerError::AddressUnavailable),
    }
}

/// What adding the track at `track` to the playlist at `playlist` by
/// `authority` makes of the ledger.
pub open spec fn add_track_to_playlist_outcome(
    s: LedgerState,
    authority: Seq<u8>,
    playlist: Seq<u8>,
    track: Seq<u8>,
    now: i64,
) -> Result<LedgerState, LedgerError> {
    on_resolved(
        AddTrackToPlaylist::resolution(s.program_id, authority, playlist, track),
        |ctx: AddTrackToPlaylist| add_track_to_playlist_step(s, ctx, now),
    )
}

/// Appends the track at `track` to the playlist at `playlist`.
pub fn add_track_to_playlist(
    ledger: &mut Ledger,
    authority: &Address,
    playlist: &Address,
    track: &Address,
    now: i64,
) -> (r: Result<(), LedgerError>)
    requires
        old(ledger).wf(),
    ensures
        final(ledger).wf(),
        commits(
            old(ledger)@,
            add_track_to_playlist_outcome(old(ledger)@, authority@, playlist@, track@, now),
            r,
            final(ledger)@,
        ),
        old(ledger)@.valid() ==> final(ledger)@.valid(),
{
    match AddTrackToPlaylist::resolve(&ledger.program_id, authority, playlist, track) {
        Some(ctx) => crate::instructions::playlist::add_track_to_playlist(ledger, &ctx, now),
        None => Err(LedgerError::AddressUnavailable),
    }
}

/// What naming `collaborator` on the playlist at `playlist` makes of the
/// ledger.
pub open spec fn add_collaborator_outcome(
    s: LedgerState,
    authority: Seq<u8>,
    playlist: Seq<u8>,
    collaborator: Seq<u8>,
    permissions: u8,
    now: i64,
) -> Result<LedgerState, LedgerError> {
    on_resolved(
        AddCollaborator::resolution(s.program_id, authority, playlist, collaborator),
        |ctx: AddCollaborator| add_collaborator_step(s, ctx, permissions, now),
    )
}

/// Gives `collaborator` the capabilities `permissions` on the playlist at
/// `playlist`.
pub fn add_collaborator(
    ledger: &mut Ledger,
    authority: &Address,
    playlist: &Address,
    collaborator: &Address,
    permissions: u8,
    now: i64,
) -> (r: Result<(), LedgerError>)
    requires
        old(ledger).wf(),
    ensures
        final(ledger).wf(),
        commits(
            old(ledger)@,
            add_collaborator_outcome(
                old(ledger)@,
                authority@,
                playlist@,
                collaborator@,
                permissions,
                now,
            ),
            r,
            final(ledger)@,
        ),
        old(ledger)@.valid() ==> final(ledger)@.valid(),
{
    match AddCollaborator::resolve(&ledger.program_id, authority, playlist, collaborator) {
        Some(ctx) => crate::instructions::playlist::add_collaborator(
            ledger,
            &ctx,
            permissions,
            now,
        ),
        None => Err(LedgerError::AddressUnavailable),
    }
}

/// What a like of the track at `track` by `user` makes of the ledger. The
/// track must exist: its creator is part of the key.
pub open spec fn like_track_outcome(s: LedgerState, user: Seq<u8>, track: Seq<u8>, now: i64)
    -> Result<LedgerState, LedgerError> {
    if !s.tracks.contains_key(track) {
        Err(LedgerError::NotFound)
    } else {
        on_resolved(
            LikeTrack::resolution(
                s.program_id,
                user,
                track,
                s.tracks[track].created_by@,
                now,
                s.feed_nonce,
            ),
            |ctx: LikeTrack| like_track_step(s, ctx, now),
        )
    }
}

/// Stores the like of the track at `track` by `user`.
pub fn like_track(ledger: &mut Ledger, user: &Address, track: &Address, now: i64) -> (r: Result<
    (),
    LedgerError,
>)
    requires
        old(ledger).wf(),
    ensures
        final(ledger).wf(),
        commits(
            old(ledger)@,
            like_track_outcome(old(ledger)@, user@, track@, now),
            r,
            final(ledger)@,
        ),
        old(ledger)@.valid() ==> final(ledger)@.valid(),
{
    let creator = match ledger.tracks.get(track) {
        Some(t) => t.created_by,
        None => {
            return Err(LedgerError::NotFound);
        },
    };
    match LikeTrack::resolve(&ledger.program_id, user, track, &creator, now, ledger.feed_nonce) {
        Some(ctx) => crate::instructions::social::like_track(ledger, &ctx, now),
        None => Err(LedgerError::AddressUnavailable),
    }
}

/// What a follow of the profile at `following_profile` by `follower` makes of
/// the ledger.
pub open spec fn follow_user_outcome(
    s: LedgerState,
    follower: Seq<u8>,
    following_profile: Seq<u8>,
    now: i64,
) -> Result<LedgerState, LedgerError> {
    on_resolved(
        FollowUser::resolution(s.program_id, follower, following_profile, now, s.feed_nonce),
        |ctx: FollowUser| follow_user_step(s, ctx, now),
    )
}

/// Stores the follow of the profile at `following_profile` by `follower`.
pub fn follow_user(
    ledger: &mut Ledger,
    follower: &Address,
    following_profile: &Address,
    now: i64,
) -> (r: Result<(), LedgerError>)
    requires
        old(ledger).wf(),
    ensures
        final(ledger).wf(),
        commits(
            old(ledger)@,
            follow_user_outcome(old(ledger)@, follower@, following_profile@, now),
            r,
            final(ledger)@,
        ),
        old(ledger)@.valid() ==> final(ledger)@.valid(),
{
    match FollowUser::resolve(
        &ledger.program_id,
        follower,
        following_profile,
        now,
        ledger.feed_nonce,
    ) {
        Some(ctx) => crate::instructions::social::follow_user(ledger, &ctx, now),
        None => Err(LedgerError::AddressUnavailable),
    }
}

/// What indexing the lower-case `term` makes of the ledger.
pub open spec fn index_term_outcome(
    s: LedgerState,
    authority: Seq<u8>,
    term: Seq<char>,
    target_type: u8,
    target: Address,
    now: i64,
) -> Result<LedgerState, LedgerError> {
    on_resolved(
        CreateSearchIndex::resolution(s.program_id, authority, term, target_type),
        |ctx: CreateSearchIndex| store_search_index_step(s, ctx, term, target_type, target, now),
    )
}

/// Stores the search entry for a term that is lower-case already.
pub fn index_term(
    ledger: &mut Ledger,
    authority: &Address,
    term: String,
    target_type: u8,
    target_pubkey: Address,
    now: i64,
) -> (r: Result<(), LedgerError>)
    requires
        old(ledger).wf(),
    ensures
        final(ledger).wf(),
        commits(
            old(ledger)@,
            index_term_outcome(old(ledger)@, authority@, term@, target_type, target_pubkey, now),
            r,
            final(ledger)@,
        ),
        old(ledger)@.valid() ==> final(ledger)@.valid(),
{
    match CreateSearchIndex::resolve(&ledger.program_id, authority, &term, target_type) {
        Some(ctx) => crate::instructions::search::store_search_index(
            ledger,
            &ctx,
            term,
            target_type,
            target_pubkey,
            now,
        ),
        None => Err(LedgerError::AddressUnavailable),
    }
}

/// Lower-cases `search_term` and stores the search entry for it.
pub fn create_search_index(
    ledger: &mut Ledger,
    authority: &Address,
    search_term: String,
    target_type: u8,
    target_pubkey: Address,
    now: i64,
) -> (r: Result<(), LedgerError>)
    requires
        old(ledger).wf(),
    ensures
        final(ledger).wf(),
        commits(
            old(ledger)@,
            index_term_outcome(
                old(ledger)@,
                authority@,
                lowercase(search_term@),
                target_type,
                target_pubkey,
                now,
            ),
            r,
            final(ledger)@,
        ),
        old(ledger)@.valid() ==> final(ledger)@.valid(),
{
    let term = to_lowercase(&search_term);
    index_term(ledger, authority, term, target_type, target_pubkey, now)
}

/// Writes the insights of `user` and says where the figures come from.
pub fn generate_user_insights(ledger: &mut Ledger, user: &Address, now: i64) -> (r: Result<
    InsightSource,
    LedgerError,
>)
    requires
        old(ledger).wf(),
    ensures
        final(ledger).wf(),
        match GenerateUserInsights::resolution(old(ledger)@.program_id, user@) {
            Some(ctx) => r == Ok::<InsightSource, LedgerError>(InsightSource::Placeholder)
                && final(ledger)@ == generate_user_insights_step(old(ledger)@, ctx, now),
            None => r == Err::<InsightSource, LedgerError>(LedgerError::AddressUnavailable)
                && final(ledger)@ == old(ledger)@,
        },
        old(ledger)@.valid() ==> final(ledger)@.valid(),
{
    match GenerateUserInsights::resolve(&ledger.program_id, user) {
        Some(ctx) => crate::instructions::analytics::generate_user_insights(ledger, &ctx, now),
        None => Err(LedgerError::AddressUnavailable),
    }
}

/// What recommending `target` to `user` makes of the ledger.
pub open spec fn create_recommendation_outcome(
    s: LedgerState,
    user: Seq<u8>,
    recommendation_type: u8,
    target: Address,
    score: u32,
    reason: Seq<char>,
    now: i64,
) -> Result<LedgerState, LedgerError> {
    on_resolved(
        CreateRecommendation::resolution(s.program_id, user, target@, recommendation_type),
        |ctx: CreateRecommendation|
            create_recommendation_step(s, ctx, recommendation_type, target, score, reason, now),
    )
}

/// Stores a recommendation of `target` for `user`. `score` is the bits of an
/// `f32`.
pub fn create_recommendation(
    ledger: &mut Ledger,
    user: &Address,
    recommendation_type: u8,
    target: Address,
    score: u32,
    reason: String,
    now: i64,
) -> (r: Result<(), LedgerError>)
    requires
        old(ledger).wf(),
    ensures
        final(ledger).wf(),
        commits(
            old(ledger)@,
            create_recommendation_outcome(
                old(ledger)@,
                user@,
                recommendation_type,
                target,
                score,
                reason@,
                now,
            ),
            r,
            final(ledger)@,
        ),
        old(ledger)@.valid() ==> final(ledger)@.valid(),
{
    match CreateRecommendation::resolve(&ledger.program_id, user, &target, recommendation_type) {
        Some(ctx) => crate::instructions::analytics::create_recommendation(
            ledger,
            &ctx,
            recommendation_type,
            target,
            score,
            reason,
            now,
        ),
        None => Err(LedgerError::AddressUnavailable),
    }
}

/// What taking back the like of the track at `track` by `user` makes of the
/// ledger. The track must exist: its creator is part of the key.
pub open spec fn unlike_track_outcome(s: LedgerState, user: Seq<u8>, track: Seq<u8>, now: i64)
    -> Result<LedgerState, LedgerError> {
    if !s.tracks.contains_key(track) {
        Err(LedgerError::NotFound)
    } else {
        on_resolved(
            UnlikeTrack::resolution(s.program_id, user, track, s.tracks[track].created_by@),
            |ctx: UnlikeTrack| unlike_track_step(s, ctx, now),
        )
    }
}

/// Takes back the like of the track at `track` by `user`.
pub fn unlike_track(ledger: &mut Ledger, user: &Address, track: &Address, now: i64) -> (r: Result<
    (),
    LedgerError,
>)
    requires
        old(ledger).wf(),
    ensures
        final(ledger).wf(),
        commits(
            old(ledger)@,
            unlike_track_outcome(old(ledger)@, user@, track@, now),
            r,
            final(ledger)@,
        ),
        old(ledger)@.valid() ==> final(ledger)@.valid(),
{
    let creator = match ledger.tracks.get(track) {
        Some(t) => t.created_by,
        None => {
            return Err(LedgerError::NotFound);
        },
    };
    match UnlikeTrack::resolve(&ledger.program_id, user, track, &creator) {
        Some(ctx) => crate::instructions::social::unlike_track(ledger, &ctx, now),
        None => Err(LedgerError::AddressUnavailable),
    }
}

/// What ending the follow of the profile at `following_profile` by
/// `follower` makes of the ledger.
pub open spec fn unfollow_user_outcome(
    s: LedgerState,
    follower: Seq<u8>,
    following_profile: Seq<u8>,
) -> Result<LedgerState, LedgerError> {
    on_resolved(
        UnfollowUser::resolution(s.program_id, follower, following_profile),
        |ctx: UnfollowUser| unfollow_user_step(s, ctx),
    )
}

/// Ends the follow of the profile at `following_profile` by `follower`.
pub fn unfollow_user(ledger: &mut Ledger, follower: &Address, following_profile: &Address) -> (r:
    Result<(), LedgerError>)
    requires
        old(ledger).wf(),
    ensures
        final(ledger).wf(),
        commits(
            old(ledger)@,
            unfollow_user_outcome(old(ledger)@, follower@, following_profile@),
            r,
            final(ledger)@,
        ),
        old(ledger)@.valid() ==> final(ledger)@.valid(),
{
    match UnfollowUser::resolve(&ledger.program_id, follower, following_profile) {
        Some(ctx) => crate::instructions::social::unfollow_user(ledger, &ctx),
        None => Err(LedgerError::AddressUnavailable),
    }
}

/// Whether `actor` may exercise `capability` on the playlist at `playlist`.
pub open spec fn require_capability_outcome(
    s: LedgerState,
    actor: Seq<u8>,
    playlist: Seq<u8>,
    capability: Capability,
) -> Result<(), LedgerError> {
    match address_of(s.program_id, Namespace::PlaylistCollaborator, seq![playlist, actor]) {
        Some(edge) => capability_check(s, actor, playlist, edge, capability),
        None => Err(LedgerError::AddressUnavailable),
    }
}

/// Checks that `actor` may exercise `capability` on the playlist at
/// `playlist`. Nothing is changed.
pub fn require_capability(
    ledger: &Ledger,
    actor: &Address,
    playlist: &Address,
    capability: Capability,
) -> (r: Result<(), LedgerError>)
    requires
        ledger.wf(),
    ensures
        r == require_capability_outcome(ledger@, actor@, playlist@, capability),
{
    match find_address(
        &ledger.program_id,
        Namespace::PlaylistCollaborator,
        key2(playlist.to_seed(), actor.to_seed()),
    ) {
        Some(edge) => crate::instructions::playlist::require_capability(
            ledger,
            actor,
            playlist,
            &edge,
            capability,
        ),
        None => Err(LedgerError::AddressUnavailable),
    }
}

} // verus!
