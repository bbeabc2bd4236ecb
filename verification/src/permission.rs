//! Who may change a playlist.
//!
//! The owner may always. Anyone may add tracks to a collaborative playlist.
//! Otherwise a collaborator edge for the actor on that playlist must carry
//! the bit of the capability asked for.

use crate::address::Address;
use crate::errors::SpotifyError;
use crate::state::{Playlist, PlaylistCollaborator, PlaylistView};
use vstd::prelude::*;

verus! {

/// One right over a playlist.
#[derive(Clone, Copy, Debug, PartialEq, Eq, Structural)]
pub enum Capability {
    AddTracks,
    RemoveTracks,
    EditInfo,
}

impl Capability {
    /// The bit that grants this capability.
    pub open spec fn spec_bit(self) -> u8 {
        match self {
            Capability::AddTracks => PlaylistCollaborator::PERMISSION_ADD_TRACKS,
            Capability::RemoveTracks => PlaylistCollaborator::PERMISSION_REMOVE_TRACKS,
            Capability::EditInfo => PlaylistCollaborator::PERMISSION_EDIT_INFO,
        }
    }

    /// The error that answers a request lacking this capability.
    pub open spec fn spec_denial(self) -> SpotifyError {
        match self {
            Capability::AddTracks => SpotifyError::NoPermissionToAddTrack,
            Capability::RemoveTracks => SpotifyError::NoPermissionToRemoveTrack,
            Capability::EditInfo => SpotifyError::NoPermissionToEditPlaylist,
        }
    }

    /// The bit that grants this capability.
    pub fn bit(&self) -> (b: u8)
        ensures
            b == self.spec_bit(),
    {
        match self {
            Capability::AddTracks => PlaylistCollaborator::PERMISSION_ADD_TRACKS,
            Capability::RemoveTracks => PlaylistCollaborator::PERMISSION_REMOVE_TRACKS,
            Capability::EditInfo => PlaylistCollaborator::PERMISSION_EDIT_INFO,
        }
    }

    /// The error that answers a request lacking this capability.
    pub fn denial(&self) -> (e: SpotifyError)
        ensures
            e == self.spec_denial(),
    {
        match self {
            Capability::AddTracks => SpotifyError::NoPermissionToAddTrack,
            Capability::RemoveTracks => SpotifyError::NoPermissionToRemoveTrack,
            Capability::EditInfo => SpotifyError::NoPermissionToEditPlaylist,
        }
    }
}

/// Whether `permissions` names known capabilities only.
pub open spec fn permissions_valid(permissions: u8) -> bool {
    permissions <= PlaylistCollaborator::PERMISSION_ALL
}

/// Whether the bitmask `permissions` includes `capability`.
pub open spec fn grants(permissions: u8, capability: Capability) -> bool {
    permissions & capability.spec_bit() != 0
}

/// Whether `edge` is a collaborator edge of `actor` on the playlist stored at
/// `playlist_address` that includes `capability`.
pub open spec fn edge_grants(
    edge: Option<PlaylistCollaborator>,
    playlist_address: Seq<u8>,
    actor: Seq<u8>,
    capability: Capability,
) -> bool {
    match edge {
        Some(c) => c.playlist@ == playlist_address && c.user@ == actor && grants(
            c.permissions,
            capability,
        ),
        None => false,
    }
}

/// The rule itself.
pub open spec fn may_mutate(
    playlist: PlaylistView,
    playlist_address: Seq<u8>,
    actor: Seq<u8>,
    edge: Option<PlaylistCollaborator>,
    capability: Capability,
) -> bool {
    ||| playlist.authority@ == actor
    ||| (capability == Capability::AddTracks && playlist.is_collaborative)
    ||| edge_grants(edge, playlist_address, actor, capability)
}

/// Whether `permissions` names known capabilities only.
pub fn check_permissions(permissions: u8) -> (r: Result<(), SpotifyError>)
    ensures
        r == if permissions_valid(permissions) {
            Ok::<(), SpotifyError>(())
        } else {
            Err(SpotifyError::InvalidPermissions)
        },
{
    if permissions <= PlaylistCollaborator::PERMISSION_ALL {
        Ok(())
    } else {
        Err(SpotifyError::InvalidPermissions)
    }
}

/// Whether `actor` may exercise `capability` on `playlist`, stored at
/// `playlist_address`, given the collaborator edge found for the actor.
pub fn can_mutate(
    playlist: &Playlist,
    playlist_address: &Address,
    actor: &Address,
    edge: Option<&PlaylistCollaborator>,
    capability: Capability,
) -> (allowed: bool)
    ensures
        allowed == may_mutate(
            playlist@,
            playlist_address@,
            actor@,
            match edge {
                Some(c) => Some(*c),
                None => None,
            },
            capability,
        ),
{
    if playlist.authority.same(actor) {
        return true;
    }
    if matches!(capability, Capability::AddTracks) && playlist.is_collaborative {
        return true;
    }
    match edge {
        Some(c) => c.playlist.same(playlist_address) && c.user.same(actor) && (c.permissions
            & capability.bit()) != 0,
        None => false,
    }
}

/// `Ok` where [`can_mutate`] allows, else the denial of the capability.
pub fn authorize(
    playlist: &Playlist,
    playlist_address: &Address,
    actor: &Address,
    edge: Option<&PlaylistCollaborator>,
    capability: Capability,
) -> (r: Result<(), SpotifyError>)
    ensures
        r == if may_mutate(
            playlist@,
            playlist_address@,
            actor@,
            match edge {
                Some(c) => Some(*c),
                None => None,
            },
            capability,
        ) {
            Ok::<(), SpotifyError>(())
        } else {
            Err(capability.spec_denial())
        },
{
    if can_mutate(playlist, playlist_address, actor, edge, capability) {
        Ok(())
    } else {
        Err(capability.denial())
    }
}

/// The owner may exercise every capability, whatever the flags and edges.
pub proof fn law_owner_may_always(
    playlist: PlaylistView,
    playlist_address: Seq<u8>,
    edge: Option<PlaylistCollaborator>,
    capability: Capability,
)
    ensures
        may_mutate(playlist, playlist_address, playlist.authority@, edge, capability),
{
}

/// A collaborator whose bitmask is the add bit alone may add tracks, and may
/// neither remove tracks nor edit, on a playlist they do not own.
pub proof fn law_add_only_collaborator(
    playlist: PlaylistView,
    playlist_address: Seq<u8>,
    actor: Seq<u8>,
    edge: PlaylistCollaborator,
)
    requires
        playlist.authority@ != actor,
        edge.playlist@ == playlist_address,
        edge.user@ == actor,
        edge.permissions == PlaylistCollaborator::PERMISSION_ADD_TRACKS,
    ensures
        may_mutate(playlist, playlist_address, actor, Some(edge), Capability::AddTracks),
        !may_mutate(playlist, playlist_address, actor, Some(edge), Capability::RemoveTracks),
        !may_mutate(playlist, playlist_address, actor, Some(edge), Capability::EditInfo),
        Capability::RemoveTracks.spec_denial() == SpotifyError::NoPermissionToRemoveTrack,
{
    assert(1u8 & 1u8 != 0) by (bit_vector);
    assert(1u8 & 2u8 == 0) by (bit_vector);
    assert(1u8 & 4u8 == 0) by (bit_vector);
}

/// A stranger, neither owner nor collaborator, may add to a collaborative
/// playlist and do nothing else.
pub proof fn law_stranger(
    playlist: PlaylistView,
    playlist_address: Seq<u8>,
    actor: Seq<u8>,
    capability: Capability,
)
    requires
        playlist.authority@ != actor,
    ensures
        may_mutate(playlist, playlist_address, actor, None, capability) <==> (capability
            == Capability::AddTracks && playlist.is_collaborative),
{
}

/// Within the valid bitmasks, holding every capability is holding all three.
pub proof fn law_all_is_every_bit(permissions: u8)
    requires
        permissions_valid(permissions),
    ensures
        permissions == PlaylistCollaborator::PERMISSION_ALL <==> (grants(
            permissions,
            Capability::AddTracks,
        ) && grants(permissions, Capability::RemoveTracks) && grants(
            permissions,
            Capability::EditInfo,
        )),
{
    assert(permissions <= 7 ==> (permissions == 7 <==> (permissions & 1 != 0 && permissions & 2
        != 0 && permissions & 4 != 0))) by (bit_vector);
}

} // verus!
