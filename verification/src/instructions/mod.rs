//! The operations of the platform, each as one atomic step on the ledger.
//!
//! An operation names the records it touches by their addresses, gathered
//! in a context. `resolve` derives a context from identities and keys; the
//! entry points of [`crate::program`] do so for every call. Each operation
//! has a step function that says what it makes of a ledger, and the
//! operation itself commits that step or leaves the ledger untouched.

pub mod analytics;
pub mod playlist;
pub mod search;
pub mod social;
pub mod track;
pub mod user;

pub use analytics::{
    create_recommendation, generate_user_insights, CreateRecommendation, GenerateUserInsights,
    InsightSource,
};
pub use playlist::{
    add_collaborator, add_track_to_playlist, create_playlist, require_capability,
    AddCollaborator, AddTrackToPlaylist, CreatePlaylist,
};
pub use search::{
    create_search_index, lookup, lookup_term, store_search_index, CreateSearchIndex,
    SearchFilters, SearchResult,
};
pub use social::{
    follow_user, like_track, unfollow_user, unlike_track, FollowUser, LikeTrack, UnfollowUser,
    UnlikeTrack,
};
pub use track::{create_track, play_track, CreateTrack, PlayTrack};
pub use user::{create_user_profile, update_user_profile, CreateUserProfile, UpdateUserProfile};
