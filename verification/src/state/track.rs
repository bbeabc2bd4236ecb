//! Tracks and the per-listener play aggregate.

use crate::address::Address;
use crate::text::byte_len;
use vstd::prelude::*;

verus! {

/// Longest track title, in bytes.
pub const MAX_TITLE_LEN: usize = 128;

/// Longest artist name, in bytes.
pub const MAX_ARTIST_LEN: usize = 64;

/// Longest album name, in bytes.
pub const MAX_ALBUM_LEN: usize = 64;

/// Longest genre, in bytes.
pub const MAX_GENRE_LEN: usize = 32;

/// Longest audio or cover URL, in bytes.
pub const MAX_URL_LEN: usize = 256;

/// A piece of music and its popularity counters.
#[derive(Clone, Debug, PartialEq, Eq)]
pub struct Track {
    pub title: String,
    pub artist: String,
    pub album: String,
    pub genre: String,
    pub duration: u64,
    pub audio_url: String,
    pub cover_image: String,
    pub likes_count: u64,
    pub plays_count: u64,
    pub created_by: Address,
    pub created_at: i64,
}

/// A track with its texts as character sequences.
pub struct TrackView {
    pub title: Seq<char>,
    pub artist: Seq<char>,
    pub album: Seq<char>,
    pub genre: Seq<char>,
    pub duration: u64,
    pub audio_url: Seq<char>,
    pub cover_image: Seq<char>,
    pub likes_count: u64,
    pub plays_count: u64,
    pub created_by: Address,
    pub created_at: i64,
}

impl TrackView {
    /// Every text field is within its bound, the title is not empty and the
    /// duration is positive.
    pub open spec fn wf(self) -> bool {
        &&& 0 < byte_len(self.title) <= MAX_TITLE_LEN
        &&& byte_len(self.artist) <= MAX_ARTIST_LEN
        &&& byte_len(self.album) <= MAX_ALBUM_LEN
        &&& byte_len(self.genre) <= MAX_GENRE_LEN
        &&& byte_len(self.audio_url) <= MAX_URL_LEN
        &&& byte_len(self.cover_image) <= MAX_URL_LEN
        &&& self.duration > 0
    }
}

impl View for Track {
    type V = TrackView;

    open spec fn view(&self) -> TrackView {
        TrackView {
            title: self.title@,
            artist: self.artist@,
            album: self.album@,
            genre: self.genre@,
            duration: self.duration,
            audio_url: self.audio_url@,
            cover_image: self.cover_image@,
            likes_count: self.likes_count,
            plays_count: self.plays_count,
            created_by: self.created_by,
            created_at: self.created_at,
        }
    }
}

impl Track {
    /// Bytes reserved for a stored track.
    pub const MAX_SIZE: usize = 8 + 132 + 68 + 68 + 36 + 8 + 260 + 260 + 8 + 8 + 32 + 8;
}

/// All plays of one track by one user, as one aggregate.
#[derive(Clone, Copy, Debug, PartialEq, Eq)]
pub struct TrackPlay {
    pub track: Address,
    pub user: Address,
    pub play_count: u64,
    pub total_duration: u64,
    pub first_played_at: i64,
    pub last_played_at: i64,
}

impl View for TrackPlay {
    type V = TrackPlay;

    open spec fn view(&self) -> TrackPlay {
        *self
    }
}

impl TrackPlay {
    /// Bytes reserved for a stored play aggregate.
    pub const MAX_SIZE: usize = 8 + 32 + 32 + 8 + 8 + 8 + 8;
}

} // verus!
