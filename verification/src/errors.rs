//! Why an operation was refused.

use vstd::prelude::*;
use vstd::string::*;

verus! {

/// A rule of the platform that a request broke.
#[derive(Clone, Copy, Debug, PartialEq, Eq, Structural)]
pub enum SpotifyError {
    UsernameTooLong,
    UsernameEmpty,
    DisplayNameTooLong,
    BioTooLong,
    ProfileImageUrlTooLong,
    PlaylistNameTooLong,
    PlaylistNameEmpty,
    PlaylistDescriptionTooLong,
    TrackTitleTooLong,
    TrackTitleEmpty,
    ArtistNameTooLong,
    AlbumNameTooLong,
    GenreTooLong,
    AudioUrlTooLong,
    CoverImageUrlTooLong,
    InvalidDuration,
    ArithmeticOverflow,
    ArithmeticUnderflow,
    CannotFollowSelf,
    AlreadyFollowing,
    NotFollowing,
    AlreadyLikedTrack,
    TrackNotLiked,
    AlreadyLikedPlaylist,
    PlaylistNotLiked,
    NoPermissionToAddTrack,
    NoPermissionToRemoveTrack,
    NoPermissionToEditPlaylist,
    InvalidPermissions,
    SearchTermTooLong,
    SearchTermEmpty,
    ReasonTooLong,
    InvalidScore,
    NotImplemented,
    InvalidAccount,
    Unauthorized,
}

/// The broad family an error belongs to.
#[derive(Clone, Copy, Debug, PartialEq, Eq, Structural)]
pub enum ErrorKind {
    /// A bound on length, emptiness, duration, score or permission bits.
    Validation,
    /// A counter would leave the range of its integer.
    Arithmetic,
    /// An edge exists already, is missing, or would join a node to itself.
    Relationship,
    /// The actor lacks the capability.
    Permission,
    /// The request is unsupported or malformed.
    Request,
}

impl SpotifyError {
    /// What to tell the caller.
    pub open spec fn spec_message(self) -> Seq<char> {
        match self {
            SpotifyError::UsernameTooLong => "Username cannot be longer than 32 characters"@,
            SpotifyError::UsernameEmpty => "Username cannot be empty"@,
            SpotifyError::DisplayNameTooLong => "Display name cannot be longer than 64 characters"@,
            SpotifyError::BioTooLong => "Bio cannot be longer than 256 characters"@,
            SpotifyError::ProfileImageUrlTooLong => {
                "Profile image URL cannot be longer than 256 characters"@
            },
            SpotifyError::PlaylistNameTooLong => {
                "Playlist name cannot be longer than 64 characters"@
            },
            SpotifyError::PlaylistNameEmpty => "Playlist name cannot be empty"@,
            SpotifyError::PlaylistDescriptionTooLong => {
                "Playlist description cannot be longer than 256 characters"@
            },
            SpotifyError::TrackTitleTooLong => "Track title cannot be longer than 128 characters"@,
            SpotifyError::TrackTitleEmpty => "Track title cannot be empty"@,
            SpotifyError::ArtistNameTooLong => "Artist name cannot be longer than 64 characters"@,
            SpotifyError::AlbumNameTooLong => "Album name cannot be longer than 64 characters"@,
            SpotifyError::GenreTooLong => "Genre cannot be longer than 32 characters"@,
            SpotifyError::AudioUrlTooLong => "Audio URL cannot be longer than 256 characters"@,
            SpotifyError::CoverImageUrlTooLong => {
                "Cover image URL cannot be longer than 256 characters"@
            },
            SpotifyError::InvalidDuration => "Duration must be greater than 0"@,
            SpotifyError::ArithmeticOverflow => "Arithmetic overflow"@,
            SpotifyError::ArithmeticUnderflow => "Arithmetic underflow"@,
            SpotifyError::CannotFollowSelf => "Cannot follow yourself"@,
            SpotifyError::AlreadyFollowing => "Already following this user"@,
            SpotifyError::NotFollowing => "Not following this user"@,
            SpotifyError::AlreadyLikedTrack => "Already liked this track"@,
            SpotifyError::TrackNotLiked => "Track not liked"@,
            SpotifyError::AlreadyLikedPlaylist => "Already liked this playlist"@,
            SpotifyError::PlaylistNotLiked => "Playlist not liked"@,
            SpotifyError::NoPermissionToAddTrack => "No permission to add track to this playlist"@,
            SpotifyError::NoPermissionToRemoveTrack => {
                "No permission to remove track from this playlist"@
            },
            SpotifyError::NoPermissionToEditPlaylist => "No permission to edit this playlist"@,
            SpotifyError::InvalidPermissions => "Invalid permission level"@,
            SpotifyError::SearchTermTooLong => "Search term cannot be longer than 64 characters"@,
            SpotifyError::SearchTermEmpty => "Search term cannot be empty"@,
            SpotifyError::ReasonTooLong => "Reason cannot be longer than 128 characters"@,
            SpotifyError::InvalidScore => "Score must be between 0.0 and 1.0"@,
            SpotifyError::NotImplemented => "Feature not implemented"@,
            SpotifyError::InvalidAccount => "Invalid account provided"@,
            SpotifyError::Unauthorized => "Unauthorized action"@,
        }
    }

    /// What to tell the caller.
    pub fn message(&self) -> (m: String)
        ensures
            m@ == self.spec_message(),
    {
        let text = match self {
            SpotifyError::UsernameTooLong => "Username cannot be longer than 32 characters",
            SpotifyError::UsernameEmpty => "Username cannot be empty",
            SpotifyError::DisplayNameTooLong => "Display name cannot be longer than 64 characters",
            SpotifyError::BioTooLong => "Bio cannot be longer than 256 characters",
            SpotifyError::ProfileImageUrlTooLong => {
                "Profile image URL cannot be longer than 256 characters"
            },
            SpotifyError::PlaylistNameTooLong => {
                "Playlist name cannot be longer than 64 characters"
            },
            SpotifyError::PlaylistNameEmpty => "Playlist name cannot be empty",
            SpotifyError::PlaylistDescriptionTooLong => {
                "Playlist description cannot be longer than 256 characters"
            },
            SpotifyError::TrackTitleTooLong => "Track title cannot be longer than 128 characters",
            SpotifyError::TrackTitleEmpty => "Track title cannot be empty",
            SpotifyError::ArtistNameTooLong => "Artist name cannot be longer than 64 characters",
            SpotifyError::AlbumNameTooLong => "Album name cannot be longer than 64 characters",
            SpotifyError::GenreTooLong => "Genre cannot be longer than 32 characters",
            SpotifyError::AudioUrlTooLong => "Audio URL cannot be longer than 256 characters",
            SpotifyError::CoverImageUrlTooLong => {
                "Cover image URL cannot be longer than 256 characters"
            },
            SpotifyError::InvalidDuration => "Duration must be greater than 0",
            SpotifyError::ArithmeticOverflow => "Arithmetic overflow",
            SpotifyError::ArithmeticUnderflow => "Arithmetic underflow",
            SpotifyError::CannotFollowSelf => "Cannot follow yourself",
            SpotifyError::AlreadyFollowing => "Already following this user",
            SpotifyError::NotFollowing => "Not following this user",
            SpotifyError::AlreadyLikedTrack => "Already liked this track",
            SpotifyError::TrackNotLiked => "Track not liked",
            SpotifyError::AlreadyLikedPlaylist => "Already liked this playlist",
            SpotifyError::PlaylistNotLiked => "Playlist not liked",
            SpotifyError::NoPermissionToAddTrack => "No permission to add track to this playlist",
            SpotifyError::NoPermissionToRemoveTrack => {
                "No permission to remove track from this playlist"
            },
            SpotifyError::NoPermissionToEditPlaylist => "No permission to edit this playlist",
            SpotifyError::InvalidPermissions => "Invalid permission level",
            SpotifyError::SearchTermTooLong => "Search term cannot be longer than 64 characters",
            SpotifyError::SearchTermEmpty => "Search term cannot be empty",
            SpotifyError::ReasonTooLong => "Reason cannot be longer than 128 characters",
            SpotifyError::InvalidScore => "Score must be between 0.0 and 1.0",
            SpotifyError::NotImplemented => "Feature not implemented",
            SpotifyError::InvalidAccount => "Invalid account provided",
            SpotifyError::Unauthorized => "Unauthorized action",
        };
        String::from_str(text)
    }

    /// The family of this error.
    pub open spec fn spec_kind(self) -> ErrorKind {
        match self {
            SpotifyError::ArithmeticOverflow | SpotifyError::ArithmeticUnderflow => {
                ErrorKind::Arithmetic
            },
            SpotifyError::CannotFollowSelf
            | SpotifyError::AlreadyFollowing
            | SpotifyError::NotFollowing
            | SpotifyError::AlreadyLikedTrack
            | SpotifyError::TrackNotLiked
            | SpotifyError::AlreadyLikedPlaylist
            | SpotifyError::PlaylistNotLiked => ErrorKind::Relationship,
            SpotifyError::NoPermissionToAddTrack
            | SpotifyError::NoPermissionToRemoveTrack
            | SpotifyError::NoPermissionToEditPlaylist
            | SpotifyError::Unauthorized => ErrorKind::Permission,
            SpotifyError::NotImplemented | SpotifyError::InvalidAccount => ErrorKind::Request,
            _ => ErrorKind::Validation,
        }
    }

    /// The family of this error.
    pub fn kind(&self) -> (k: ErrorKind)
        ensures
            k == self.spec_kind(),
    {
        match self {
            SpotifyError::ArithmeticOverflow | SpotifyError::ArithmeticUnderflow => {
                ErrorKind::Arithmetic
            },
            SpotifyError::CannotFollowSelf
            | SpotifyError::AlreadyFollowing
            | SpotifyError::NotFollowing
            | SpotifyError::AlreadyLikedTrack
            | SpotifyError::TrackNotLiked
            | SpotifyError::AlreadyLikedPlaylist
            | SpotifyError::PlaylistNotLiked => ErrorKind::Relationship,
            SpotifyError::NoPermissionToAddTrack
            | SpotifyError::NoPermissionToRemoveTrack
            | SpotifyError::NoPermissionToEditPlaylist
            | SpotifyError::Unauthorized => ErrorKind::Permission,
            SpotifyError::NotImplemented | SpotifyError::InvalidAccount => ErrorKind::Request,
            _ => ErrorKind::Validation,
        }
    }
}

/// Why the ledger refused an operation.
#[derive(Clone, Copy, Debug, PartialEq, Eq, Structural)]
pub enum LedgerError {
    /// The request broke a rule of the platform.
    Program(SpotifyError),
    /// A record is already stored at the address the new record must take.
    AlreadyExists,
    /// No record is stored at an address the operation reads.
    NotFound,
    /// The key of a record has no address: a seed is too long, or the search
    /// found none.
    AddressUnavailable,
    /// A text that the operation composes would exceed the bound of its field.
    FieldTooLong,
}

impl LedgerError {
    /// The family of this error.
    pub open spec fn spec_kind(self) -> ErrorKind {
        match self {
            LedgerError::Program(e) => e.spec_kind(),
            LedgerError::AlreadyExists => ErrorKind::Relationship,
            LedgerError::NotFound => ErrorKind::Relationship,
            LedgerError::AddressUnavailable => ErrorKind::Request,
            LedgerError::FieldTooLong => ErrorKind::Validation,
        }
    }

    /// The family of this error.
    pub fn kind(&self) -> (k: ErrorKind)
        ensures
            k == self.spec_kind(),
    {
        match self {
            LedgerError::Program(e) => e.kind(),
            LedgerError::AlreadyExists => ErrorKind::Relationship,
            LedgerError::NotFound => ErrorKind::Relationship,
            LedgerError::AddressUnavailable => ErrorKind::Request,
            LedgerError::FieldTooLong => ErrorKind::Validation,
        }
    }
}

} // verus!
