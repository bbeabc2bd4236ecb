//! Advisory records: insights about a user and recommendations for one.
//!
//! Scores are carried as the bits of an `f32`. The insight figures are not
//! derived from activity yet: every generation says so in its result.

use crate::address::{lemma_address_of_bytes, Address};
use crate::errors::{LedgerError, SpotifyError};
use crate::ledger::{commits, Ledger, LedgerState};
use crate::namespace::{address_of, byte_part, find_address, key1, key3, Namespace};
use crate::state::analytics::{
    score_in_unit_interval, MAX_REASON_LEN, SCORE_HALF_BITS, SCORE_NEGATIVE_ZERO_BITS,
    SCORE_ONE_BITS,
};
use crate::state::{Recommendation, RecommendationView, UserInsights, UserInsightsView, UserStats};
use crate::text::{byte_len, require_at_most};
use vstd::prelude::*;
use vstd::string::*;

verus! {

/// Where the figures of an insight come from.
#[derive(Clone, Copy, Debug, PartialEq, Eq, Structural)]
pub enum InsightSource {
    /// Fixed stand-in values, not derived from the user's activity.
    Placeholder,
    /// Derived from the user's activity.
    Derived,
}

/// The records that generating insights touches.
#[derive(Clone, Copy, Debug, PartialEq, Eq)]
pub struct GenerateUserInsights {
    /// Where the insights live.
    pub user_insights: Address,
    /// The user's statistics, created if missing.
    pub user_stats: Address,
    /// The user.
    pub user: Address,
}

impl GenerateUserInsights {
    /// The addresses are those of `user`'s insights and statistics.
    pub open spec fn resolves(self, program_id: Seq<u8>, user: Seq<u8>) -> bool {
        &&& self.user@ == user
        &&& address_of(program_id, Namespace::UserInsights, seq![user]) == Some(
            self.user_insights@,
        )
        &&& address_of(program_id, Namespace::UserStats, seq![user]) == Some(self.user_stats@)
    }

    /// The records for this key, where every one of them has an address.
    pub open spec fn resolution(
        program_id: Seq<u8>,
        user: Seq<u8>,
    ) -> Option<GenerateUserInsights> {
        if exists|ctx: GenerateUserInsights| ctx.resolves(program_id, user) {
            Some(choose|ctx: GenerateUserInsights| ctx.resolves(program_id, user))
        } else {
            None
        }
    }

    /// A key has one resolution.
    pub proof fn lemma_resolution(self, program_id: Seq<u8>, user: Seq<u8>)
        requires
            self.resolves(program_id, user),
        ensures
            Self::resolution(program_id, user) == Some(self),
    {
        let other = choose|ctx: GenerateUserInsights| ctx.resolves(program_id, user);
        lemma_address_of_bytes(other.user_insights, self.user_insights);
        lemma_address_of_bytes(other.user_stats, self.user_stats);
        lemma_address_of_bytes(other.user, self.user);
    }

    /// Derives the addresses.
    pub fn resolve(program_id: &Address, user: &Address) -> (r: Option<GenerateUserInsights>)
        ensures
            r == Self::resolution(program_id@, user@),
            match r {
                Some(ctx) => ctx.resolves(program_id@, user@),
                None => address_of(program_id@, Namespace::UserInsights, seq![user@]) is None
                    || address_of(program_id@, Namespace::UserStats, seq![user@]) is None,
            },
    {
        let user_insights = find_address(program_id, Namespace::UserInsights, key1(user.to_seed()))?;
        let user_stats = find_address(program_id, Namespace::UserStats, key1(user.to_seed()))?;
        let ctx = GenerateUserInsights { user_insights, user_stats, user: *user };
        proof {
            ctx.lemma_resolution(program_id@, user@);
        }
        Some(ctx)
    }
}

/// Total listening time of a user. Not derived yet: always zero.
pub fn calculate_total_listening_time(_user_stats: &UserStats) -> (seconds: u64)
    ensures
        seconds == 0,
{
    0
}

/// Favourite genre of a user. Not derived yet: always `Unknown`.
pub fn determine_favorite_genre(_user: &Address) -> (genre: String)
    ensures
        genre@ == "Unknown"@,
{
    String::from_str("Unknown")
}

/// Most played track of a user. Not derived yet: always none.
pub fn find_most_played_track(_user: &Address) -> (track: Option<Address>)
    ensures
        track is None,
{
    None
}

/// Discovery score of a user, as `f32` bits. Not derived yet: always 0.5.
pub fn calculate_discovery_score(_user_stats: &UserStats) -> (bits: u32)
    ensures
        bits == SCORE_HALF_BITS,
{
    SCORE_HALF_BITS
}

/// Social engagement of a user, as `f32` bits. Not derived yet: always 0.5.
pub fn calculate_social_engagement(_user_stats: &UserStats) -> (bits: u32)
    ensures
        bits == SCORE_HALF_BITS,
{
    SCORE_HALF_BITS
}

/// The statistics of a user who has none yet.
pub open spec fn fresh_stats(user: Address, now: i64) -> UserStats {
    UserStats {
        user,
        tracks_created: 0,
        playlists_created: 0,
        total_likes_received: 0,
        total_plays: 0,
        last_active: now,
    }
}

/// What generating insights makes of the ledger: statistics are created at
/// zero where the user has none, and the insights at `ctx.user_insights`
/// become the stand-in figures, stamped `now`.
pub open spec fn generate_user_insights_step(s: LedgerState, ctx: GenerateUserInsights, now: i64)
    -> LedgerState {
    LedgerState {
        stats: if s.stats.contains_key(ctx.user_stats@) {
            s.stats
        } else {
            s.stats.insert(ctx.user_stats@, fresh_stats(ctx.user, now))
        },
        insights: s.insights.insert(
            ctx.user_insights@,
            UserInsightsView {
                user: ctx.user,
                total_listening_time: 0,
                favorite_genre: "Unknown"@,
                most_played_track: None,
                discovery_score: SCORE_HALF_BITS,
                social_engagement: SCORE_HALF_BITS,
                generated_at: now,
            },
        ),
        ..s
    }
}

/// Writes the insights of `ctx.user` and says where the figures come from.
pub fn generate_user_insights(ledger: &mut Ledger, ctx: &GenerateUserInsights, now: i64) -> (r:
    Result<InsightSource, LedgerError>)
    requires
        old(ledger).wf(),
    ensures
        final(ledger).wf(),
        r == Ok::<InsightSource, LedgerError>(InsightSource::Placeholder),
        final(ledger)@ == generate_user_insights_step(old(ledger)@, *ctx, now),
        old(ledger)@.valid() ==> final(ledger)@.valid(),
{
    let stats = match ledger.stats.get(&ctx.user_stats) {
        Some(s) => *s,
        None => {
            let fresh = UserStats {
                user: ctx.user,
                tracks_created: 0,
                playlists_created: 0,
                total_likes_received: 0,
                total_plays: 0,
                last_active: now,
            };
            ledger.stats.put(ctx.user_stats, fresh);
            fresh
        },
    };
    let insights = UserInsights {
        user: ctx.user,
        total_listening_time: calculate_total_listening_time(&stats),
        favorite_genre: determine_favorite_genre(&ctx.user),
        most_played_track: find_most_played_track(&ctx.user),
        discovery_score: calculate_discovery_score(&stats),
        social_engagement: calculate_social_engagement(&stats),
        generated_at: now,
    };
    proof {
        lemma_unknown_fits();
    }
    ledger.insights.put(ctx.user_insights, insights);
    Ok(InsightSource::Placeholder)
}

/// The stand-in genre has seven bytes.
pub proof fn lemma_unknown_fits()
    ensures
        byte_len("Unknown"@) == 7,
{
    reveal_strlit("Unknown");
    let chars = "Unknown"@;
    assert(vstd::utf8::is_ascii_chars(chars)) by {
        assert forall|i: int| 0 <= i < chars.len() implies (chars[i] as nat) < 128 by {
            assert(chars[0] == 'U');
            assert(chars[1] == 'n');
            assert(chars[2] == 'k');
            assert(chars[3] == 'n');
            assert(chars[4] == 'o');
            assert(chars[5] == 'w');
            assert(chars[6] == 'n');
        }
    }
    vstd::utf8::is_ascii_chars_encode_utf8(chars);
}

/// The records that creating a recommendation touches.
#[derive(Clone, Copy, Debug, PartialEq, Eq)]
pub struct CreateRecommendation {
    /// Where the recommendation will live.
    pub recommendation: Address,
    /// The user it is for.
    pub user: Address,
}

impl CreateRecommendation {
    /// The address is that of the recommendation of `target` to `user` of
    /// the type given.
    pub open spec fn resolves(
        self,
        program_id: Seq<u8>,
        user: Seq<u8>,
        target: Seq<u8>,
        recommendation_type: u8,
    ) -> bool {
        &&& self.user@ == user
        &&& address_of(
            program_id,
            Namespace::Recommendation,
            seq![user, target, seq![recommendation_type]],
        ) == Some(self.recommendation@)
    }

    /// The records for this key, where every one of them has an address.
    pub open spec fn resolution(
        program_id: Seq<u8>,
        user: Seq<u8>,
        target: Seq<u8>,
        recommendation_type: u8,
    ) -> Option<CreateRecommendation> {
        if exists|ctx: CreateRecommendation|
            ctx.resolves(program_id, user, target, recommendation_type) {
            Some(
                choose|ctx: CreateRecommendation|
                    ctx.resolves(program_id, user, target, recommendation_type),
            )
        } else {
            None
        }
    }

    /// A key has one resolution.
    pub proof fn lemma_resolution(
        self,
        program_id: Seq<u8>,
        user: Seq<u8>,
        target: Seq<u8>,
        recommendation_type: u8,
    )
        requires
            self.resolves(program_id, user, target, recommendation_type),
        ensures
            Self::resolution(program_id, user, target, recommendation_type) == Some(self),
    {
        let other = choose|ctx: CreateRecommendation|
            ctx.resolves(program_id, user, target, recommendation_type);
        lemma_address_of_bytes(other.recommendation, self.recommendation);
        lemma_address_of_bytes(other.user, self.user);
    }

    /// Derives the address.
    pub fn resolve(
        program_id: &Address,
        user: &Address,
        target: &Address,
        recommendation_type: u8,
    ) -> (r: Option<CreateRecommendation>)
        ensures
            r == Self::resolution(program_id@, user@, target@, recommendation_type),
            match r {
                Some(ctx) => ctx.resolves(program_id@, user@, target@, recommendation_type),
                None => address_of(
                    program_id@,
                    Namespace::Recommendation,
                    seq![user@, target@, seq![recommendation_type]],
                ) is None,
            },
    {
        let recommendation = find_address(
            program_id,
            Namespace::Recommendation,
            key3(user.to_seed(), target.to_seed(), byte_part(recommendation_type)),
        )?;
        let ctx = CreateRecommendation { recommendation, user: *user };
        proof {
            ctx.lemma_resolution(program_id@, user@, target@, recommendation_type);
        }
        Some(ctx)
    }
}

/// Whether the `f32` with these bits lies between 0 and 1, both included.
pub fn score_is_valid(bits: u32) -> (ok: bool)
    ensures
        ok == score_in_unit_interval(bits),
{
    bits <= SCORE_ONE_BITS || bits == SCORE_NEGATIVE_ZERO_BITS
}

/// The first rule that the fields of a recommendation break, if any.
pub open spec fn recommendation_rejection(score: u32, reason: Seq<char>) -> Option<SpotifyError> {
    if byte_len(reason) > MAX_REASON_LEN {
        Some(SpotifyError::ReasonTooLong)
    } else if !score_in_unit_interval(score) {
        Some(SpotifyError::InvalidScore)
    } else {
        None
    }
}

/// Checks the fields of a recommendation, in the order of
/// [`recommendation_rejection`].
pub fn validate_recommendation(score: u32, reason: &String) -> (r: Result<(), SpotifyError>)
    ensures
        r == match recommendation_rejection(score, reason@) {
            Some(e) => Err::<(), SpotifyError>(e),
            None => Ok(()),
        },
{
    require_at_most(reason, MAX_REASON_LEN, SpotifyError::ReasonTooLong)?;
    if !score_is_valid(score) {
        return Err(SpotifyError::InvalidScore);
    }
    Ok(())
}

/// What creating a recommendation makes of the ledger: the fields are
/// checked, the address must be free, and the recommendation is stored
/// unviewed.
pub open spec fn create_recommendation_step(
    s: LedgerState,
    ctx: CreateRecommendation,
    recommendation_type: u8,
    target: Address,
    score: u32,
    reason: Seq<char>,
    now: i64,
) -> Result<LedgerState, LedgerError> {
    match recommendation_rejection(score, reason) {
        Some(e) => Err(LedgerError::Program(e)),
        None => if s.recommendations.contains_key(ctx.recommendation@) {
            Err(LedgerError::AlreadyExists)
        } else {
            Ok(
                LedgerState {
                    recommendations: s.recommendations.insert(
                        ctx.recommendation@,
                        RecommendationView {
                            user: ctx.user,
                            recommendation_type,
                            target,
                            score,
                            reason,
                            created_at: now,
                            is_viewed: false,
                        },
                    ),
                    ..s
                },
            )
        },
    }
}

/// Stores a recommendation of `target` for `ctx.user`. `score` is the bits
/// of an `f32`.
pub fn create_recommendation(
    ledger: &mut Ledger,
    ctx: &CreateRecommendation,
    recommendation_type: u8,
    target: Address,
    score: u32,
    reason: String,
    now: i64,
) -> (r: Result<(), LedgerError>)
    requires
        old(ledger).wf(),
    ensures
        final(ledger).wf(),
        commits(
            old(ledger)@,
            create_recommendation_step(
                old(ledger)@,
                *ctx,
                recommendation_type,
                target,
                score,
                reason@,
                now,
            ),
            r,
            final(ledger)@,
        ),
        old(ledger)@.valid() ==> final(ledger)@.valid(),
{
    match validate_recommendation(score, &reason) {
        Err(e) => {
            return Err(LedgerError::Program(e));
        },
        Ok(()) => {},
    }
    if ledger.recommendations.contains(&ctx.recommendation) {
        return Err(LedgerError::AlreadyExists);
    }
    ledger.recommendations.put(
        ctx.recommendation,
        Recommendation {
            user: ctx.user,
            recommendation_type,
            target,
            score,
            reason,
            created_at: now,
            is_viewed: false,
        },
    );
    Ok(())
}

} // verus!
