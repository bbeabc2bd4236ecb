//! Playlists, their members and their collaborators.

use crate::address::Address;
use crate::text::byte_len;
use vstd::prelude::*;

verus! {

/// Longest playlist name, in bytes.
pub const MAX_PLAYLIST_NAME_LEN: usize = 64;

/// Longest playlist description, in bytes.
pub const MAX_PLAYLIST_DESCRIPTION_LEN: usize = 256;

/// An ordered collection of tracks. `tracks_count` is also the position the
/// next track will take.
#[derive(Clone, Debug, PartialEq, Eq)]
pub struct Playlist {
    pub authority: Address,
    pub name: String,
    pub description: String,
    pub is_public: bool,
    pub tracks_count: u64,
    pub likes_count: u64,
    pub plays_count: u64,
    pub is_collaborative: bool,
    pub created_at: i64,
    pub updated_at: i64,
}

/// A playlist with its texts as character sequences.
pub struct PlaylistView {
    pub authority: Address,
    pub name: Seq<char>,
    pub description: Seq<char>,
    pub is_public: bool,
    pub tracks_count: u64,
    pub likes_count: u64,
    pub plays_count: u64,
    pub is_collaborative: bool,
    pub created_at: i64,
    pub updated_at: i64,
}

impl PlaylistView {
    /// The name is not empty and both texts are within their bounds.
    pub open spec fn wf(self) -> bool {
        &&& 0 < byte_len(self.name) <= MAX_PLAYLIST_NAME_LEN
        &&& byte_len(self.description) <= MAX_PLAYLIST_DESCRIPTION_LEN
    }
}

impl View for Playlist {
    type V = PlaylistView;

    open spec fn view(&self) -> PlaylistView {
        PlaylistView {
            authority: self.authority,
            name: self.name@,
            description: self.description@,
            is_public: self.is_public,
            tracks_count: self.tracks_count,
            likes_count: self.likes_count,
            plays_count: self.plays_count,
            is_collaborative: self.is_collaborative,
            created_at: self.created_at,
            updated_at: self.updated_at,
        }
    }
}

impl Playlist {
    /// Bytes reserved for a stored playlist.
    pub const MAX_SIZE: usize = 8 + 32 + 68 + 260 + 1 + 8 + 8 + 8 + 1 + 8 + 8;
}

/// Membership of one track in one playlist.
#[derive(Clone, Copy, Debug, PartialEq, Eq)]
pub struct PlaylistTrack {
    pub playlist: Address,
    pub track: Address,
    pub added_by: Address,
    pub added_at: i64,
    pub position: u64,
}

impl View for PlaylistTrack {
    type V = PlaylistTrack;

    open spec fn view(&self) -> PlaylistTrack {
        *self
    }
}

impl PlaylistTrack {
    /// Bytes reserved for a stored membership.
    pub const MAX_SIZE: usize = 8 + 32 + 32 + 32 + 8 + 8;
}

/// The capabilities one user holds over one playlist.
#[derive(Clone, Copy, Debug, PartialEq, Eq)]
pub struct PlaylistCollaborator {
    pub playlist: Address,
    pub user: Address,
    pub permissions: u8,
    pub added_at: i64,
}

impl View for PlaylistCollaborator {
    type V = PlaylistCollaborator;

    open spec fn view(&self) -> PlaylistCollaborator {
        *self
    }
}

impl PlaylistCollaborator {
    /// Bytes reserved for a stored collaborator edge.
    pub const MAX_SIZE: usize = 8 + 32 + 32 + 1 + 8;

    /// May add tracks.
    pub const PERMISSION_ADD_TRACKS: u8 = 1;

    /// May remove tracks.
    pub const PERMISSION_REMOVE_TRACKS: u8 = 2;

    /// May edit name and description.
    pub const PERMISSION_EDIT_INFO: u8 = 4;

    /// Every capability.
    pub const PERMISSION_ALL: u8 = 7;

    /// The bitmask names known capabilities only.
    pub open spec fn wf(&self) -> bool {
        self.permissions <= Self::PERMISSION_ALL
    }
}

} // verus!
