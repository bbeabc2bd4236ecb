//! The records of the platform, one type per kind of entity or edge.

pub mod analytics;
pub mod playlist;
pub mod social;
pub mod track;
pub mod user;

pub use analytics::{
    Recommendation, RecommendationView, SearchIndex, SearchIndexView, UserInsights,
    UserInsightsView,
};
pub use playlist::{Playlist, PlaylistCollaborator, PlaylistTrack, PlaylistView};
pub use social::{ActivityFeed, ActivityFeedView, PlaylistLike, TrackLike, UserFollow};
pub use track::{Track, TrackPlay, TrackView};
pub use user::{UserProfile, UserProfileView, UserStats};
