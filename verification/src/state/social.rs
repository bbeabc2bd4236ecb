//! Likes, follows and the activity log.

use crate::address::Address;
use crate::text::byte_len;
use vstd::prelude::*;

verus! {

/// Longest activity metadata, in bytes.
pub const MAX_METADATA_LEN: usize = 64;

/// Its existence means that `user` likes `track`.
#[derive(Clone, Copy, Debug, PartialEq, Eq)]
pub struct TrackLike {
    pub user: Address,
    pub track: Address,
    pub created_at: i64,
}

impl View for TrackLike {
    type V = TrackLike;

    open spec fn view(&self) -> TrackLike {
        *self
    }
}

impl TrackLike {
    /// Bytes reserved for a stored like.
    pub const MAX_SIZE: usize = 8 + 32 + 32 + 8;
}

/// Its existence means that `user` likes `playlist`.
#[derive(Clone, Copy, Debug, PartialEq, Eq)]
pub struct PlaylistLike {
    pub user: Address,
    pub playlist: Address,
    pub created_at: i64,
}

impl View for PlaylistLike {
    type V = PlaylistLike;

    open spec fn view(&self) -> PlaylistLike {
        *self
    }
}

impl PlaylistLike {
    /// Bytes reserved for a stored like.
    pub const MAX_SIZE: usize = 8 + 32 + 32 + 8;
}

/// Its existence means that `follower` follows `following`; the two differ.
#[derive(Clone, Copy, Debug, PartialEq, Eq)]
pub struct UserFollow {
    pub follower: Address,
    pub following: Address,
    pub created_at: i64,
}

impl View for UserFollow {
    type V = UserFollow;

    open spec fn view(&self) -> UserFollow {
        *self
    }
}

impl UserFollow {
    /// Bytes reserved for a stored follow.
    pub const MAX_SIZE: usize = 8 + 32 + 32 + 8;

    /// Nobody follows themselves.
    pub open spec fn wf(&self) -> bool {
        self.follower@ != self.following@
    }
}

/// One entry of a user's append-only activity log.
#[derive(Clone, Debug, PartialEq, Eq)]
pub struct ActivityFeed {
    pub user: Address,
    pub activity_type: u8,
    pub target: Address,
    pub metadata: String,
    pub created_at: i64,
}

/// An activity with its metadata as a character sequence.
pub struct ActivityFeedView {
    pub user: Address,
    pub activity_type: u8,
    pub target: Address,
    pub metadata: Seq<char>,
    pub created_at: i64,
}

impl ActivityFeedView {
    /// The metadata is within its bound.
    pub open spec fn wf(self) -> bool {
        byte_len(self.metadata) <= MAX_METADATA_LEN
    }
}

impl View for ActivityFeed {
    type V = ActivityFeedView;

    open spec fn view(&self) -> ActivityFeedView {
        ActivityFeedView {
            user: self.user,
            activity_type: self.activity_type,
            target: self.target,
            metadata: self.metadata@,
            created_at: self.created_at,
        }
    }
}

impl ActivityFeed {
    /// Bytes reserved for a stored activity.
    pub const MAX_SIZE: usize = 8 + 32 + 1 + 32 + 68 + 8;

    pub const ACTIVITY_TRACK_LIKED: u8 = 1;

    pub const ACTIVITY_PLAYLIST_LIKED: u8 = 2;

    pub const ACTIVITY_USER_FOLLOWED: u8 = 3;

    pub const ACTIVITY_TRACK_CREATED: u8 = 4;

    pub const ACTIVITY_PLAYLIST_CREATED: u8 = 5;

    pub const ACTIVITY_TRACK_PLAYED: u8 = 6;
}

} // verus!
