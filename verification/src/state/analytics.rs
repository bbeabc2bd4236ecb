//! Search entries and advisory records.

use crate::address::Address;
use crate::text::byte_len;
use vstd::prelude::*;

verus! {

/// Longest search term, in bytes.
pub const MAX_SEARCH_TERM_LEN: usize = 64;

/// Longest recommendation reason, in bytes.
pub const MAX_REASON_LEN: usize = 128;

/// Longest favourite genre, in bytes.
pub const MAX_FAVORITE_GENRE_LEN: usize = 32;

/// The bits of the `f32` value 1.0.
pub const SCORE_ONE_BITS: u32 = 0x3F80_0000;

/// The bits of the `f32` value 0.5.
pub const SCORE_HALF_BITS: u32 = 0x3F00_0000;

/// The bits of the `f32` value -0.0, which compares equal to 0.0.
pub const SCORE_NEGATIVE_ZERO_BITS: u32 = 0x8000_0000;

/// Whether the `f32` with these bits lies in the closed interval from 0 to 1.
///
/// Non-negative floats are ordered as their bits are, so the interval is the
/// bit patterns up to that of 1.0, and negative zero besides. No NaN has
/// such bits.
pub open spec fn score_in_unit_interval(bits: u32) -> bool {
    bits <= SCORE_ONE_BITS || bits == SCORE_NEGATIVE_ZERO_BITS
}

/// Advisory figures about one user's listening. Scores are `f32` bits.
#[derive(Clone, Debug, PartialEq, Eq)]
pub struct UserInsights {
    pub user: Address,
    pub total_listening_time: u64,
    pub favorite_genre: String,
    pub most_played_track: Option<Address>,
    pub discovery_score: u32,
    pub social_engagement: u32,
    pub generated_at: i64,
}

/// Insights with the genre as a character sequence.
pub struct UserInsightsView {
    pub user: Address,
    pub total_listening_time: u64,
    pub favorite_genre: Seq<char>,
    pub most_played_track: Option<Address>,
    pub discovery_score: u32,
    pub social_engagement: u32,
    pub generated_at: i64,
}

impl UserInsightsView {
    /// The genre is within its bound and both scores lie between 0 and 1.
    pub open spec fn wf(self) -> bool {
        &&& byte_len(self.favorite_genre) <= MAX_FAVORITE_GENRE_LEN
        &&& score_in_unit_interval(self.discovery_score)
        &&& score_in_unit_interval(self.social_engagement)
    }
}

impl View for UserInsights {
    type V = UserInsightsView;

    open spec fn view(&self) -> UserInsightsView {
        UserInsightsView {
            user: self.user,
            total_listening_time: self.total_listening_time,
            favorite_genre: self.favorite_genre@,
            most_played_track: self.most_played_track,
            discovery_score: self.discovery_score,
            social_engagement: self.social_engagement,
            generated_at: self.generated_at,
        }
    }
}

impl UserInsights {
    /// Bytes reserved for stored insights.
    pub const MAX_SIZE: usize = 8 + 32 + 8 + 36 + 33 + 4 + 4 + 8;
}

/// A suggestion of a track, playlist or user. The score is `f32` bits.
#[derive(Clone, Debug, PartialEq, Eq)]
pub struct Recommendation {
    pub user: Address,
    pub recommendation_type: u8,
    pub target: Address,
    pub score: u32,
    pub reason: String,
    pub created_at: i64,
    pub is_viewed: bool,
}

impl Recommendation {
    /// Bytes reserved for a stored recommendation.
    pub const MAX_SIZE: usize = 8 + 32 + 1 + 32 + 4 + 132 + 8 + 1;

    pub const TYPE_TRACK: u8 = 1;

    pub const TYPE_PLAYLIST: u8 = 2;

    pub const TYPE_USER: u8 = 3;
}

/// A recommendation with its reason as a character sequence.
pub struct RecommendationView {
    pub user: Address,
    pub recommendation_type: u8,
    pub target: Address,
    pub score: u32,
    pub reason: Seq<char>,
    pub created_at: i64,
    pub is_viewed: bool,
}

impl RecommendationView {
    /// The reason is within its bound and the score lies between 0 and 1.
    pub open spec fn wf(self) -> bool {
        &&& byte_len(self.reason) <= MAX_REASON_LEN
        &&& score_in_unit_interval(self.score)
    }
}

impl View for Recommendation {
    type V = RecommendationView;

    open spec fn view(&self) -> RecommendationView {
        RecommendationView {
            user: self.user,
            recommendation_type: self.recommendation_type,
            target: self.target,
            score: self.score,
            reason: self.reason@,
            created_at: self.created_at,
            is_viewed: self.is_viewed,
        }
    }
}

/// Points from a lower-case term and a target type to one target.
#[derive(Clone, Debug, PartialEq, Eq)]
pub struct SearchIndex {
    pub search_term: String,
    pub target_type: u8,
    pub target_pubkey: Address,
    pub created_at: i64,
}

impl SearchIndex {
    /// Bytes reserved for a stored search entry.
    pub const MAX_SIZE: usize = 8 + 68 + 1 + 32 + 8;
}

/// A search entry with its term as a character sequence.
pub struct SearchIndexView {
    pub search_term: Seq<char>,
    pub target_type: u8,
    pub target_pubkey: Address,
    pub created_at: i64,
}

impl SearchIndexView {
    /// The term is not empty and within its bound.
    pub open spec fn wf(self) -> bool {
        0 < byte_len(self.search_term) <= MAX_SEARCH_TERM_LEN
    }
}

impl View for SearchIndex {
    type V = SearchIndexView;

    open spec fn view(&self) -> SearchIndexView {
        SearchIndexView {
            search_term: self.search_term@,
            target_type: self.target_type,
            target_pubkey: self.target_pubkey,
            created_at: self.created_at,
        }
    }
}

} // verus!
