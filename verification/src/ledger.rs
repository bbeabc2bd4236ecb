//! The store that every operation reads and writes.
//!
//! A ledger is one table per kind of record. An operation either commits all
//! of its writes or leaves the ledger as it found it.

use crate::address::Address;
use crate::errors::LedgerError;
use crate::state::{
    ActivityFeed, ActivityFeedView, Playlist, PlaylistCollaborator, PlaylistLike, PlaylistTrack,
    PlaylistView, Recommendation, RecommendationView, SearchIndex, SearchIndexView, Track,
    TrackLike, TrackPlay, TrackView, UserFollow, UserInsights, UserInsightsView, UserProfile,
    UserProfileView, UserStats,
};
use crate::store::Table;
use vstd::prelude::*;

verus! {

/// What a ledger holds, as maps from address bytes to records.
pub struct LedgerState {
    pub program_id: Seq<u8>,
    pub profiles: Map<Seq<u8>, UserProfileView>,
    pub stats: Map<Seq<u8>, UserStats>,
    pub tracks: Map<Seq<u8>, TrackView>,
    pub track_plays: Map<Seq<u8>, TrackPlay>,
    pub playlists: Map<Seq<u8>, PlaylistView>,
    pub playlist_tracks: Map<Seq<u8>, PlaylistTrack>,
    pub collaborators: Map<Seq<u8>, PlaylistCollaborator>,
    pub track_likes: Map<Seq<u8>, TrackLike>,
    pub playlist_likes: Map<Seq<u8>, PlaylistLike>,
    pub follows: Map<Seq<u8>, UserFollow>,
    pub feed: Map<Seq<u8>, ActivityFeedView>,
    pub search: Map<Seq<u8>, SearchIndexView>,
    pub insights: Map<Seq<u8>, UserInsightsView>,
    pub recommendations: Map<Seq<u8>, RecommendationView>,
    pub feed_nonce: u64,
}

impl LedgerState {
    /// Every stored record keeps the bounds of its type.
    pub open spec fn valid(self) -> bool {
        &&& forall|k: Seq<u8>| self.profiles.contains_key(k) ==> (#[trigger] self.profiles[k]).wf()
        &&& forall|k: Seq<u8>| self.tracks.contains_key(k) ==> (#[trigger] self.tracks[k]).wf()
        &&& forall|k: Seq<u8>|
            self.playlists.contains_key(k) ==> (#[trigger] self.playlists[k]).wf()
        &&& forall|k: Seq<u8>|
            self.collaborators.contains_key(k) ==> (#[trigger] self.collaborators[k]).wf()
        &&& forall|k: Seq<u8>| self.follows.contains_key(k) ==> (#[trigger] self.follows[k]).wf()
        &&& forall|k: Seq<u8>| self.feed.contains_key(k) ==> (#[trigger] self.feed[k]).wf()
        &&& forall|k: Seq<u8>| self.search.contains_key(k) ==> (#[trigger] self.search[k]).wf()
        &&& forall|k: Seq<u8>| self.insights.contains_key(k) ==> (#[trigger] self.insights[k]).wf()
        &&& forall|k: Seq<u8>|
            self.recommendations.contains_key(k) ==> (#[trigger] self.recommendations[k]).wf()
    }
}

/// How a call relates to the step it takes: where the step is defined the
/// call succeeds and the ledger becomes the step's result; where the step is
/// refused the call returns that refusal and the ledger stays as it was.
pub open spec fn commits(
    before: LedgerState,
    step: Result<LedgerState, LedgerError>,
    returned: Result<(), LedgerError>,
    after: LedgerState,
) -> bool {
    match step {
        Ok(next) => returned is Ok && after == next,
        Err(e) => returned == Err::<(), LedgerError>(e) && after == before,
    }
}

/// All records of one deployment of the platform.
pub struct Ledger {
    pub program_id: Address,
    pub profiles: Table<UserProfile>,
    pub stats: Table<UserStats>,
    pub tracks: Table<Track>,
    pub track_plays: Table<TrackPlay>,
    pub playlists: Table<Playlist>,
    pub playlist_tracks: Table<PlaylistTrack>,
    pub collaborators: Table<PlaylistCollaborator>,
    pub track_likes: Table<TrackLike>,
    pub playlist_likes: Table<PlaylistLike>,
    pub follows: Table<UserFollow>,
    pub feed: Table<ActivityFeed>,
    pub search: Table<SearchIndex>,
    pub insights: Table<UserInsights>,
    pub recommendations: Table<Recommendation>,
    /// Number of activity entries written so far; part of the next entry's key.
    pub feed_nonce: u64,
}

impl View for Ledger {
    type V = LedgerState;

    open spec fn view(&self) -> LedgerState {
        LedgerState {
            program_id: self.program_id@,
            profiles: self.profiles@,
            stats: self.stats@,
            tracks: self.tracks@,
            track_plays: self.track_plays@,
            playlists: self.playlists@,
            playlist_tracks: self.playlist_tracks@,
            collaborators: self.collaborators@,
            track_likes: self.track_likes@,
            playlist_likes: self.playlist_likes@,
            follows: self.follows@,
            feed: self.feed@,
            search: self.search@,
            insights: self.insights@,
            recommendations: self.recommendations@,
            feed_nonce: self.feed_nonce,
        }
    }
}

impl Ledger {
    /// Every table holds at most one record per address.
    pub open spec fn wf(&self) -> bool {
        &&& self.profiles.wf()
        &&& self.stats.wf()
        &&& self.tracks.wf()
        &&& self.track_plays.wf()
        &&& self.playlists.wf()
        &&& self.playlist_tracks.wf()
        &&& self.collaborators.wf()
        &&& self.track_likes.wf()
        &&& self.playlist_likes.wf()
        &&& self.follows.wf()
        &&& self.feed.wf()
        &&& self.search.wf()
        &&& self.insights.wf()
        &&& self.recommendations.wf()
    }

    /// An empty ledger for the program deployed at `program_id`.
    pub fn new(program_id: Address) -> (ledger: Ledger)
        ensures
            ledger.wf(),
            ledger@.valid(),
            ledger@.program_id == program_id@,
            ledger@.profiles == Map::<Seq<u8>, UserProfileView>::empty(),
            ledger@.stats == Map::<Seq<u8>, UserStats>::empty(),
            ledger@.tracks == Map::<Seq<u8>, TrackView>::empty(),
            ledger@.track_plays == Map::<Seq<u8>, TrackPlay>::empty(),
            ledger@.playlists == Map::<Seq<u8>, PlaylistView>::empty(),
            ledger@.playlist_tracks == Map::<Seq<u8>, PlaylistTrack>::empty(),
            ledger@.collaborators == Map::<Seq<u8>, PlaylistCollaborator>::empty(),
            ledger@.track_likes == Map::<Seq<u8>, TrackLike>::empty(),
            ledger@.playlist_likes == Map::<Seq<u8>, PlaylistLike>::empty(),
            ledger@.follows == Map::<Seq<u8>, UserFollow>::empty(),
            ledger@.feed == Map::<Seq<u8>, ActivityFeedView>::empty(),
            ledger@.search == Map::<Seq<u8>, SearchIndexView>::empty(),
            ledger@.insights == Map::<Seq<u8>, UserInsightsView>::empty(),
            ledger@.recommendations == Map::<Seq<u8>, RecommendationView>::empty(),
            ledger@.feed_nonce == 0,
    {
        Ledger {
            program_id,
            profiles: Table::new(),
            stats: Table::new(),
            tracks: Table::new(),
            track_plays: Table::new(),
            playlists: Table::new(),
            playlist_tracks: Table::new(),
            collaborators: Table::new(),
            track_likes: Table::new(),
            playlist_likes: Table::new(),
            follows: Table::new(),
            feed: Table::new(),
            search: Table::new(),
            insights: Table::new(),
            recommendations: Table::new(),
            feed_nonce: 0,
        }
    }
}

} // verus!
