//! A user's profile and the activity counters kept beside it.

use crate::address::Address;
use crate::text::byte_len;
use vstd::prelude::*;

verus! {

/// Longest username, in bytes.
pub const MAX_USERNAME_LEN: usize = 32;

/// Longest display name, in bytes.
pub const MAX_DISPLAY_NAME_LEN: usize = 64;

/// Longest bio, in bytes.
pub const MAX_BIO_LEN: usize = 256;

/// Longest profile image URL, in bytes.
pub const MAX_PROFILE_IMAGE_LEN: usize = 256;

/// One per identity. The username never changes once set.
#[derive(Clone, Debug, PartialEq, Eq)]
pub struct UserProfile {
    pub authority: Address,
    pub username: String,
    pub display_name: String,
    pub bio: String,
    pub profile_image: String,
    pub followers_count: u64,
    pub following_count: u64,
    pub created_at: i64,
}

/// A profile with its texts as character sequences.
pub struct UserProfileView {
    pub authority: Address,
    pub username: Seq<char>,
    pub display_name: Seq<char>,
    pub bio: Seq<char>,
    pub profile_image: Seq<char>,
    pub followers_count: u64,
    pub following_count: u64,
    pub created_at: i64,
}

impl UserProfileView {
    /// Every text field is within its bound and the username is not empty.
    pub open spec fn wf(self) -> bool {
        &&& 0 < byte_len(self.username) <= MAX_USERNAME_LEN
        &&& byte_len(self.display_name) <= MAX_DISPLAY_NAME_LEN
        &&& byte_len(self.bio) <= MAX_BIO_LEN
        &&& byte_len(self.profile_image) <= MAX_PROFILE_IMAGE_LEN
    }
}

impl View for UserProfile {
    type V = UserProfileView;

    open spec fn view(&self) -> UserProfileView {
        UserProfileView {
            authority: self.authority,
            username: self.username@,
            display_name: self.display_name@,
            bio: self.bio@,
            profile_image: self.profile_image@,
            followers_count: self.followers_count,
            following_count: self.following_count,
            created_at: self.created_at,
        }
    }
}

impl UserProfile {
    /// Bytes reserved for a stored profile.
    pub const MAX_SIZE: usize = 8 + 32 + 36 + 68 + 260 + 260 + 8 + 8 + 8;
}

/// Created with the profile; many operations adjust it.
#[derive(Clone, Copy, Debug, PartialEq, Eq)]
pub struct UserStats {
    pub user: Address,
    pub tracks_created: u64,
    pub playlists_created: u64,
    pub total_likes_received: u64,
    pub total_plays: u64,
    pub last_active: i64,
}

impl View for UserStats {
    type V = UserStats;

    open spec fn view(&self) -> UserStats {
        *self
    }
}

impl UserStats {
    /// Bytes reserved for stored statistics.
    pub const MAX_SIZE: usize = 8 + 32 + 8 + 8 + 8 + 8 + 8;
}

} // verus!
