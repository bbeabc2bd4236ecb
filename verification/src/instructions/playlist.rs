//! Creating playlists, adding tracks and naming collaborators.

use crate::address::{lemma_address_of_bytes, Address};
use crate::counter::{checked_step, stepped, Delta};
use crate::errors::{LedgerError, SpotifyError};
use crate::ledger::{commits, Ledger, LedgerState};
use crate::namespace::{address_of, find_address, key1, key2, Namespace};
use crate::permission::{authorize, check_permissions, may_mutate, permissions_valid, Capability};
use crate::state::playlist::{MAX_PLAYLIST_DESCRIPTION_LEN, MAX_PLAYLIST_NAME_LEN};
use crate::state::{Playlist, PlaylistCollaborator, PlaylistTrack, PlaylistView, UserStats};
use crate::text::{byte_len, require_at_most, require_not_empty, text_bytes};
use vstd::prelude::*;

verus! {

/// The records that creating a playlist touches.
#[derive(Clone, Copy, Debug, PartialEq, Eq)]
pub struct CreatePlaylist {
    /// Where the playlist will live.
    pub playlist: Address,
    /// The owner's statistics.
    pub user_stats: Address,
    /// The owner.
    pub authority: Address,
}

impl CreatePlaylist {
    /// The addresses are those of `authority`'s playlist called `name` and of
    /// `authority`'s statistics.
    pub open spec fn resolves(self, program_id: Seq<u8>, authority: Seq<u8>, name: Seq<char>)
        -> bool {
        &&& self.authority@ == authority
        &&& address_of(
            program_id,
            Namespace::Playlist,
            seq![authority, vstd::utf8::encode_utf8(name)],
        ) == Some(self.playlist@)
        &&& address_of(program_id, Namespace::UserStats, seq![authority]) == Some(
            self.user_stats@,
        )
    }

    /// The records for this key, where every one of them has an address.
    pub open spec fn resolution(
        program_id: Seq<u8>,
        authority: Seq<u8>,
        name: Seq<char>,
    ) -> Option<CreatePlaylist> {
        if exists|ctx: CreatePlaylist| ctx.resolves(program_id, authority, name) {
            Some(choose|ctx: CreatePlaylist| ctx.resolves(program_id, authority, name))
        } else {
            None
        }
    }

    /// A key has one resolution.
    pub proof fn lemma_resolution(self, program_id: Seq<u8>, authority: Seq<u8>, name: Seq<char>)
        requires
            self.resolves(program_id, authority, name),
        ensures
            Self::resolution(program_id, authority, name) == Some(self),
    {
        let other = choose|ctx: CreatePlaylist| ctx.resolves(program_id, authority, name);
        lemma_address_of_bytes(other.playlist, self.playlist);
        lemma_address_of_bytes(other.user_stats, self.user_stats);
        lemma_address_of_bytes(other.authority, self.authority);
    }

    /// Derives the addresses. A name longer than a seed has no address.
    pub fn resolve(program_id: &Address, authority: &Address, name: &String) -> (r: Option<
        CreatePlaylist,
    >)
        ensures
            r == Self::resolution(program_id@, authority@, name@),
            match r {
                Some(ctx) => ctx.resolves(program_id@, authority@, name@),
                None => address_of(
                    program_id@,
                    Namespace::Playlist,
                    seq![authority@, vstd::utf8::encode_utf8(name@)],
                ) is None || address_of(program_id@, Namespace::UserStats, seq![authority@])
                    is None,
            },
            byte_len(name@) > 32 ==> r is None,
    {
        let playlist = find_address(
            program_id,
            Namespace::Playlist,
            key2(authority.to_seed(), text_bytes(name.as_str())),
        )?;
        let user_stats = find_address(program_id, Namespace::UserStats, key1(authority.to_seed()))?;
        let ctx = CreatePlaylist { playlist, user_stats, authority: *authority };
        proof {
            ctx.lemma_resolution(program_id@, authority@, name@);
        }
        Some(ctx)
    }
}

/// The first rule that the fields of a new playlist break, if any.
pub open spec fn playlist_rejection(name: Seq<char>, description: Seq<char>) -> Option<
    SpotifyError,
> {
    if byte_len(name) > MAX_PLAYLIST_NAME_LEN {
        Some(SpotifyError::PlaylistNameTooLong)
    } else if byte_len(name) == 0 {
        Some(SpotifyError::PlaylistNameEmpty)
    } else if byte_len(description) > MAX_PLAYLIST_DESCRIPTION_LEN {
        Some(SpotifyError::PlaylistDescriptionTooLong)
    } else {
        None
    }
}

/// Checks the fields of a new playlist, in the order of
/// [`playlist_rejection`].
pub fn validate_playlist(name: &String, description: &String) -> (r: Result<(), SpotifyError>)
    ensures
        r == match playlist_rejection(name@, description@) {
            Some(e) => Err::<(), SpotifyError>(e),
            None => Ok(()),
        },
{
    require_at_most(name, MAX_PLAYLIST_NAME_LEN, SpotifyError::PlaylistNameTooLong)?;
    require_not_empty(name, SpotifyError::PlaylistNameEmpty)?;
    require_at_most(
        description,
        MAX_PLAYLIST_DESCRIPTION_LEN,
        SpotifyError::PlaylistDescriptionTooLong,
    )?;
    Ok(())
}

/// What creating a playlist makes of the ledger.
///
/// The fields are checked first. Then the playlist's address must be free
/// and the owner's statistics must exist. The playlist starts empty; the
/// owner's `playlists_created` rises by one.
pub open spec fn create_playlist_step(
    s: LedgerState,
    ctx: CreatePlaylist,
    name: Seq<char>,
    description: Seq<char>,
    is_public: bool,
    is_collaborative: bool,
    now: i64,
) -> Result<LedgerState, LedgerError> {
    match playlist_rejection(name, description) {
        Some(e) => Err(LedgerError::Program(e)),
        None => if s.playlists.contains_key(ctx.playlist@) {
            Err(LedgerError::AlreadyExists)
        } else if !s.stats.contains_key(ctx.user_stats@) {
            Err(LedgerError::NotFound)
        } else {
            let stats = s.stats[ctx.user_stats@];
            match stepped(stats.playlists_created, Delta::Increment) {
                Err(e) => Err(LedgerError::Program(e)),
                Ok(created) => Ok(
                    LedgerState {
                        playlists: s.playlists.insert(
                            ctx.playlist@,
                            PlaylistView {
                                authority: ctx.authority,
                                name,
                                description,
                                is_public,
                                tracks_count: 0,
                                likes_count: 0,
                                plays_count: 0,
                                is_collaborative,
                                created_at: now,
                                updated_at: now,
                            },
                        ),
                        stats: s.stats.insert(
                            ctx.user_stats@,
                            UserStats { playlists_created: created, last_active: now, ..stats },
                        ),
                        ..s
                    },
                ),
            }
        },
    }
}

/// Creates a playlist at `ctx.playlist` for `ctx.authority`.
pub fn create_playlist(
    ledger: &mut Ledger,
    ctx: &CreatePlaylist,
    name: String,
    description: String,
    is_public: bool,
    is_collaborative: bool,
    now: i64,
) -> (r: Result<(), LedgerError>)
    requires
        old(ledger).wf(),
    ensures
        final(ledger).wf(),
        commits(
            old(ledger)@,
            create_playlist_step(
                old(ledger)@,
                *ctx,
                name@,
                description@,
                is_public,
                is_collaborative,
                now,
            ),
            r,
            final(ledger)@,
        ),
        old(ledger)@.valid() ==> final(ledger)@.valid(),
{
    match validate_playlist(&name, &description) {
        Err(e) => {
            return Err(LedgerError::Program(e));
        },
        Ok(()) => {},
    }
    if ledger.playlists.contains(&ctx.playlist) {
        return Err(LedgerError::AlreadyExists);
    }
    let stats = match ledger.stats.get(&ctx.user_stats) {
        Some(s) => *s,
        None => {
            return Err(LedgerError::NotFound);
        },
    };
    let created = match checked_step(stats.playlists_created, Delta::Increment) {
        Ok(n) => n,
        Err(e) => {
            return Err(LedgerError::Program(e));
        },
    };
    ledger.playlists.put(
        ctx.playlist,
        Playlist {
            authority: ctx.authority,
            name,
            description,
            is_public,
            tracks_count: 0,
            likes_count: 0,
            plays_count: 0,
            is_collaborative,
            created_at: now,
            updated_at: now,
        },
    );
    ledger.stats.put(
        ctx.user_stats,
        UserStats { playlists_created: created, last_active: now, ..stats },
    );
    Ok(())
}

/// The records that adding a track to a playlist touches.
#[derive(Clone, Copy, Debug, PartialEq, Eq)]
pub struct AddTrackToPlaylist {
    /// The playlist that grows.
    pub playlist: Address,
    /// Where the membership will live.
    pub playlist_track: Address,
    /// Where the actor's collaborator edge on the playlist lives, if one
    /// exists.
    pub playlist_collaborator: Address,
    /// The track added.
    pub track: Address,
    /// The actor.
    pub authority: Address,
}

impl AddTrackToPlaylist {
    /// The addresses are those of the membership of `track` in `playlist` and
    /// of the collaborator edge of `authority` on `playlist`.
    pub open spec fn resolves(
        self,
        program_id: Seq<u8>,
        authority: Seq<u8>,
        playlist: Seq<u8>,
        track: Seq<u8>,
    ) -> bool {
        &&& self.authority@ == authority
        &&& self.playlist@ == playlist
        &&& self.track@ == track
        &&& address_of(program_id, Namespace::PlaylistTrack, seq![playlist, track]) == Some(
            self.playlist_track@,
        )
        &&& address_of(program_id, Namespace::PlaylistCollaborator, seq![playlist, authority])
            == Some(self.playlist_collaborator@)
    }

    /// The records for this key, where every one of them has an address.
    pub open spec fn resolution(
        program_id: Seq<u8>,
        authority: Seq<u8>,
        playlist: Seq<u8>,
        track: Seq<u8>,
    ) -> Option<AddTrackToPlaylist> {
        if exists|ctx: AddTrackToPlaylist| ctx.resolves(program_id, authority, playlist, track) {
            Some(
                choose|ctx: AddTrackToPlaylist|
                    ctx.resolves(program_id, authority, playlist, track),
            )
        } else {
            None
        }
    }

    /// A key has one resolution.
    pub proof fn lemma_resolution(
        self,
        program_id: Seq<u8>,
        authority: Seq<u8>,
        playlist: Seq<u8>,
        track: Seq<u8>,
    )
        requires
            self.resolves(program_id, authority, playlist, track),
        ensures
            Self::resolution(program_id, authority, playlist, track) == Some(self),
    {
        let other = choose|ctx: AddTrackToPlaylist|
            ctx.resolves(program_id, authority, playlist, track);
        lemma_address_of_bytes(other.playlist, self.playlist);
        lemma_address_of_bytes(other.playlist_track, self.playlist_track);
        lemma_address_of_bytes(other.playlist_collaborator, self.playlist_collaborator);
        lemma_address_of_bytes(other.track, self.track);
        lemma_address_of_bytes(other.authority, self.authority);
    }

    /// Derives the addresses.
    pub fn resolve(program_id: &Address, authority: &Address, playlist: &Address, track: &Address)
        -> (r: Option<AddTrackToPlaylist>)
        ensures
            r == Self::resolution(program_id@, authority@, playlist@, track@),
            match r {
                Some(ctx) => ctx.resolves(program_id@, authority@, playlist@, track@),
                None => address_of(program_id@, Namespace::PlaylistTrack, seq![playlist@, track@])
                    is None || address_of(
                    program_id@,
                    Namespace::PlaylistCollaborator,
                    seq![playlist@, authority@],
                ) is None,
            },
    {
        let playlist_track = find_address(
            program_id,
            Namespace::PlaylistTrack,
            key2(playlist.to_seed(), track.to_seed()),
        )?;
        let playlist_collaborator = find_address(
            program_id,
            Namespace::PlaylistCollaborator,
            key2(playlist.to_seed(), authority.to_seed()),
        )?;
        let ctx = AddTrackToPlaylist {
            playlist: *playlist,
            playlist_track,
            playlist_collaborator,
            track: *track,
            authority: *authority,
        };
        proof {
            ctx.lemma_resolution(program_id@, authority@, playlist@, track@);
        }
        Some(ctx)
    }
}

/// The record stored at `key`, if any.
pub open spec fn stored<V>(table: Map<Seq<u8>, V>, key: Seq<u8>) -> Option<V> {
    if table.contains_key(key) {
        Some(table[key])
    } else {
        None
    }
}

/// What adding a track makes of the ledger.
///
/// The playlist must exist and the actor must hold the add capability on it.
/// The membership must not exist. It takes the position that the playlist's
/// `tracks_count` names, and the count rises by one.
pub open spec fn add_track_to_playlist_step(s: LedgerState, ctx: AddTrackToPlaylist, now: i64)
    -> Result<LedgerState, LedgerError> {
    if !s.playlists.contains_key(ctx.playlist@) {
        Err(LedgerError::NotFound)
    } else {
        let playlist = s.playlists[ctx.playlist@];
        if !may_mutate(
            playlist,
            ctx.playlist@,
            ctx.authority@,
            stored(s.collaborators, ctx.playlist_collaborator@),
            Capability::AddTracks,
        ) {
            Err(LedgerError::Program(SpotifyError::NoPermissionToAddTrack))
        } else if s.playlist_tracks.contains_key(ctx.playlist_track@) {
            Err(LedgerError::AlreadyExists)
        } else {
            match stepped(playlist.tracks_count, Delta::Increment) {
                Err(e) => Err(LedgerError::Program(e)),
                Ok(count) => Ok(
                    LedgerState {
                        playlist_tracks: s.playlist_tracks.insert(
                            ctx.playlist_track@,
                            PlaylistTrack {
                                playlist: ctx.playlist,
                                track: ctx.track,
                                added_by: ctx.authority,
                                added_at: now,
                                position: playlist.tracks_count,
                            },
                        ),
                        playlists: s.playlists.insert(
                            ctx.playlist@,
                            PlaylistView { tracks_count: count, updated_at: now, ..playlist },
                        ),
                        ..s
                    },
                ),
            }
        }
    }
}

/// Appends `ctx.track` to the playlist at `ctx.playlist`.
pub fn add_track_to_playlist(ledger: &mut Ledger, ctx: &AddTrackToPlaylist, now: i64) -> (r:
    Result<(), LedgerError>)
    requires
        old(ledger).wf(),
    ensures
        final(ledger).wf(),
        commits(
            old(ledger)@,
            add_track_to_playlist_step(old(ledger)@, *ctx, now),
            r,
            final(ledger)@,
        ),
        old(ledger)@.valid() ==> final(ledger)@.valid(),
{
    let (position, allowed) = match ledger.playlists.get(&ctx.playlist) {
        Some(p) => (
            p.tracks_count,
            authorize(
                p,
                &ctx.playlist,
                &ctx.authority,
                ledger.collaborators.get(&ctx.playlist_collaborator),
                Capability::AddTracks,
            ),
        ),
        None => {
            return Err(LedgerError::NotFound);
        },
    };
    match allowed {
        Err(e) => {
            return Err(LedgerError::Program(e));
        },
        Ok(()) => {},
    }
    if ledger.playlist_tracks.contains(&ctx.playlist_track) {
        return Err(LedgerError::AlreadyExists);
    }
    let count = match checked_step(position, Delta::Increment) {
        Ok(n) => n,
        Err(e) => {
            return Err(LedgerError::Program(e));
        },
    };
    ledger.playlist_tracks.put(
        ctx.playlist_track,
        PlaylistTrack {
            playlist: ctx.playlist,
            track: ctx.track,
            added_by: ctx.authority,
            added_at: now,
            position,
        },
    );
    let mut playlist = ledger.playlists.take(&ctx.playlist).unwrap();
    playlist.tracks_count = count;
    playlist.updated_at = now;
    ledger.playlists.put(ctx.playlist, playlist);
    proof {
        let s = old(ledger)@;
        assert(ledger@.playlists =~= s.playlists.insert(
            ctx.playlist@,
            PlaylistView { tracks_count: count, updated_at: now, ..s.playlists[ctx.playlist@] },
        ));
    }
    Ok(())
}

/// The records that naming a collaborator touches.
#[derive(Clone, Copy, Debug, PartialEq, Eq)]
pub struct AddCollaborator {
    /// The playlist shared.
    pub playlist: Address,
    /// Where the collaborator edge will live.
    pub playlist_collaborator: Address,
    /// The user who gains capabilities.
    pub collaborator: Address,
    /// The actor, who must own the playlist.
    pub authority: Address,
}

impl AddCollaborator {
    /// The address is that of the collaborator edge of `collaborator` on
    /// `playlist`.
    pub open spec fn resolves(
        self,
        program_id: Seq<u8>,
        authority: Seq<u8>,
        playlist: Seq<u8>,
        collaborator: Seq<u8>,
    ) -> bool {
        &&& self.authority@ == authority
        &&& self.playlist@ == playlist
        &&& self.collaborator@ == collaborator
        &&& address_of(program_id, Namespace::PlaylistCollaborator, seq![playlist, collaborator])
            == Some(self.playlist_collaborator@)
    }

    /// The records for this key, where every one of them has an address.
    pub open spec fn resolution(
        program_id: Seq<u8>,
        authority: Seq<u8>,
        playlist: Seq<u8>,
        collaborator: Seq<u8>,
    ) -> Option<AddCollaborator> {
        if exists|ctx: AddCollaborator|
            ctx.resolves(program_id, authority, playlist, collaborator) {
            Some(
                choose|ctx: AddCollaborator|
                    ctx.resolves(program_id, authority, playlist, collaborator),
            )
        } else {
            None
        }
    }

    /// A key has one resolution.
    pub proof fn lemma_resolution(
        self,
        program_id: Seq<u8>,
        authority: Seq<u8>,
        playlist: Seq<u8>,
        collaborator: Seq<u8>,
    )
        requires
            self.resolves(program_id, authority, playlist, collaborator),
        ensures
            Self::resolution(program_id, authority, playlist, collaborator) == Some(self),
    {
        let other = choose|ctx: AddCollaborator|
            ctx.resolves(program_id, authority, playlist, collaborator);
        lemma_address_of_bytes(other.playlist, self.playlist);
        lemma_address_of_bytes(other.playlist_collaborator, self.playlist_collaborator);
        lemma_address_of_bytes(other.collaborator, self.collaborator);
        lemma_address_of_bytes(other.authority, self.authority);
    }

    /// Derives the address.
    pub fn resolve(
        program_id: &Address,
        authority: &Address,
        playlist: &Address,
        collaborator: &Address,
    ) -> (r: Option<AddCollaborator>)
        ensures
            r == Self::resolution(program_id@, authority@, playlist@, collaborator@),
            match r {
                Some(ctx) => ctx.resolves(program_id@, authority@, playlist@, collaborator@),
                None => address_of(
                    program_id@,
                    Namespace::PlaylistCollaborator,
                    seq![playlist@, collaborator@],
                ) is None,
            },
    {
        let playlist_collaborator = find_address(
            program_id,
            Namespace::PlaylistCollaborator,
            key2(playlist.to_seed(), collaborator.to_seed()),
        )?;
        let ctx = AddCollaborator {
            playlist: *playlist,
            playlist_collaborator,
            collaborator: *collaborator,
            authority: *authority,
        };
        proof {
            ctx.lemma_resolution(program_id@, authority@, playlist@, collaborator@);
        }
        Some(ctx)
    }
}

/// What naming a collaborator makes of the ledger.
///
/// The bitmask is checked first. The playlist must exist and belong to the
/// actor, and the edge must not exist. The edge is stored with the bitmask
/// given.
pub open spec fn add_collaborator_step(
    s: LedgerState,
    ctx: AddCollaborator,
    permissions: u8,
    now: i64,
) -> Result<LedgerState, LedgerError> {
    if !permissions_valid(permissions) {
        Err(LedgerError::Program(SpotifyError::InvalidPermissions))
    } else if !s.playlists.contains_key(ctx.playlist@) {
        Err(LedgerError::NotFound)
    } else if s.playlists[ctx.playlist@].authority@ != ctx.authority@ {
        Err(LedgerError::Program(SpotifyError::Unauthorized))
    } else if s.collaborators.contains_key(ctx.playlist_collaborator@) {
        Err(LedgerError::AlreadyExists)
    } else {
        Ok(
            LedgerState {
                collaborators: s.collaborators.insert(
                    ctx.playlist_collaborator@,
                    PlaylistCollaborator {
                        playlist: ctx.playlist,
                        user: ctx.collaborator,
                        permissions,
                        added_at: now,
                    },
                ),
                ..s
            },
        )
    }
}

/// Gives `ctx.collaborator` the capabilities `permissions` on the playlist at
/// `ctx.playlist`.
pub fn add_collaborator(ledger: &mut Ledger, ctx: &AddCollaborator, permissions: u8, now: i64)
    -> (r: Result<(), LedgerError>)
    requires
        old(ledger).wf(),
    ensures
        final(ledger).wf(),
        commits(
            old(ledger)@,
            add_collaborator_step(old(ledger)@, *ctx, permissions, now),
            r,
            final(ledger)@,
        ),
        old(ledger)@.valid() ==> final(ledger)@.valid(),
{
    match check_permissions(permissions) {
        Err(e) => {
            return Err(LedgerError::Program(e));
        },
        Ok(()) => {},
    }
    let owned = match ledger.playlists.get(&ctx.playlist) {
        Some(p) => p.authority.same(&ctx.authority),
        None => {
            return Err(LedgerError::NotFound);
        },
    };
    if !owned {
        return Err(LedgerError::Program(SpotifyError::Unauthorized));
    }
    if ledger.collaborators.contains(&ctx.playlist_collaborator) {
        return Err(LedgerError::AlreadyExists);
    }
    ledger.collaborators.put(
        ctx.playlist_collaborator,
        PlaylistCollaborator {
            playlist: ctx.playlist,
            user: ctx.collaborator,
            permissions,
            added_at: now,
        },
    );
    Ok(())
}

/// Whether `actor` may exercise `capability` on the playlist at `playlist`,
/// given the address `edge` of the actor's collaborator edge on it: the
/// playlist must exist, and the rule of [`may_mutate`] must allow.
pub open spec fn capability_check(
    s: LedgerState,
    actor: Seq<u8>,
    playlist: Seq<u8>,
    edge: Seq<u8>,
    capability: Capability,
) -> Result<(), LedgerError> {
    if !s.playlists.contains_key(playlist) {
        Err(LedgerError::NotFound)
    } else if may_mutate(
        s.playlists[playlist],
        playlist,
        actor,
        stored(s.collaborators, edge),
        capability,
    ) {
        Ok(())
    } else {
        Err(LedgerError::Program(capability.spec_denial()))
    }
}

/// Checks that `actor` may exercise `capability` on the playlist at
/// `playlist`. Nothing is changed.
pub fn require_capability(
    ledger: &Ledger,
    actor: &Address,
    playlist: &Address,
    edge: &Address,
    capability: Capability,
) -> (r: Result<(), LedgerError>)
    requires
        ledger.wf(),
    ensures
        r == capability_check(ledger@, actor@, playlist@, edge@, capability),
{
    match ledger.playlists.get(playlist) {
        Some(p) => match authorize(p, playlist, actor, ledger.collaborators.get(edge), capability) {
            Ok(()) => Ok(()),
            Err(e) => Err(LedgerError::Program(e)),
        },
        None => Err(LedgerError::NotFound),
    }
}

} // verus!
