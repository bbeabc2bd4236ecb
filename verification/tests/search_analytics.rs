use spotify_dapp::address::Address;
use spotify_dapp::errors::{LedgerError, SpotifyError};
use spotify_dapp::instructions::analytics::{
    calculate_discovery_score, calculate_social_engagement, calculate_total_listening_time,
    determine_favorite_genre, find_most_played_track, score_is_valid, validate_recommendation,
    CreateRecommendation, GenerateUserInsights, InsightSource,
};
use spotify_dapp::instructions::search::{
    lookup, lookup_term, store_search_index, validate_term, CreateSearchIndex, SearchResult,
};
use spotify_dapp::ledger::Ledger;
use spotify_dapp::program;
use spotify_dapp::state::{Recommendation, SearchIndex, UserInsights, UserStats};

fn who(n: u8) -> Address {
    Address::new([n; 32])
}

fn empty_ledger() -> Ledger {
    Ledger::new(who(200))
}

#[test]
fn search_term_is_stored_in_lower_case() {
    let mut ledger = empty_ledger();
    let r = program::create_search_index(&mut ledger, &who(1), "RoCk ÄÖ".to_string(), 1, who(10), 9);
    assert_eq!(r, Ok(()));
    let ctx = CreateSearchIndex::resolve(&ledger.program_id, &who(1), &"rock äö".to_string(), 1).unwrap();
    assert_eq!(
        *ledger.search.get(&ctx.search_index).unwrap(),
        SearchIndex {
            search_term: "rock äö".to_string(),
            target_type: SearchResult::RESULT_TYPE_TRACK,
            target_pubkey: who(10),
            created_at: 9,
        }
    );
}

#[test]
fn terms_that_differ_in_case_share_one_entry_and_the_last_writer_wins() {
    let mut ledger = empty_ledger();
    program::create_search_index(&mut ledger, &who(1), "Jazz".to_string(), 1, who(10), 9).unwrap();
    program::create_search_index(&mut ledger, &who(2), "JAZZ".to_string(), 1, who(11), 10).unwrap();
    let ctx = CreateSearchIndex::resolve(&ledger.program_id, &who(1), &"jazz".to_string(), 1).unwrap();
    let entry = ledger.search.get(&ctx.search_index).unwrap();
    assert_eq!(entry.target_pubkey, who(11));
    assert_eq!(entry.created_at, 10);
}

#[test]
fn one_term_has_an_entry_per_target_type() {
    let mut ledger = empty_ledger();
    program::create_search_index(&mut ledger, &who(1), "jazz".to_string(), 1, who(10), 9).unwrap();
    program::create_search_index(&mut ledger, &who(1), "jazz".to_string(), 2, who(20), 9).unwrap();
    let track = CreateSearchIndex::resolve(&ledger.program_id, &who(1), &"jazz".to_string(), 1).unwrap();
    let list = CreateSearchIndex::resolve(&ledger.program_id, &who(1), &"jazz".to_string(), 2).unwrap();
    assert_ne!(track.search_index, list.search_index);
    assert_eq!(ledger.search.get(&track.search_index).unwrap().target_pubkey, who(10));
    assert_eq!(ledger.search.get(&list.search_index).unwrap().target_pubkey, who(20));
}

#[test]
fn search_term_bounds() {
    assert_eq!(validate_term(&String::new()), Err(SpotifyError::SearchTermEmpty));
    assert_eq!(validate_term(&"a".repeat(65)), Err(SpotifyError::SearchTermTooLong));
    assert_eq!(validate_term(&"a".repeat(64)), Ok(()));
    assert_eq!(validate_term(&"a".to_string()), Ok(()));
    let mut ledger = empty_ledger();
    let ctx = CreateSearchIndex { search_index: who(5), authority: who(1) };
    assert_eq!(
        store_search_index(&mut ledger, &ctx, "a".repeat(65), 1, who(10), 9),
        Err(LedgerError::Program(SpotifyError::SearchTermTooLong))
    );
    assert_eq!(
        store_search_index(&mut ledger, &ctx, String::new(), 1, who(10), 9),
        Err(LedgerError::Program(SpotifyError::SearchTermEmpty))
    );
    assert!(!ledger.search.contains(&who(5)));
    assert_eq!(store_search_index(&mut ledger, &ctx, "a".repeat(64), 1, who(10), 9), Ok(()));
    assert_eq!(ledger.search.get(&who(5)).unwrap().search_term.len(), 64);
}

#[test]
fn empty_search_term_has_an_address_but_is_refused() {
    let mut ledger = empty_ledger();
    let r = program::create_search_index(&mut ledger, &who(1), String::new(), 1, who(10), 9);
    assert_eq!(r, Err(LedgerError::Program(SpotifyError::SearchTermEmpty)));
}

#[test]
fn search_term_longer_than_a_seed_has_no_address() {
    let mut ledger = empty_ledger();
    let r = program::create_search_index(&mut ledger, &who(1), "A".repeat(33), 1, who(10), 9);
    assert_eq!(r, Err(LedgerError::AddressUnavailable));
    let r = program::create_search_index(&mut ledger, &who(1), "A".repeat(32), 1, who(10), 9);
    assert_eq!(r, Ok(()));
}

#[test]
fn score_bits_agree_with_float_comparison() {
    let samples: [f32; 16] = [
        0.0,
        -0.0,
        1.0,
        0.5,
        0.25,
        0.999_999_9,
        1.000_000_1,
        2.0,
        -0.000_001,
        -1.0,
        f32::MIN_POSITIVE,
        f32::MAX,
        f32::MIN,
        f32::INFINITY,
        f32::NEG_INFINITY,
        f32::NAN,
    ];
    for x in samples {
        assert_eq!(score_is_valid(x.to_bits()), x >= 0.0 && x <= 1.0);
    }
    assert!(!score_is_valid((-f32::NAN).to_bits()));
    assert!(score_is_valid(1));
    assert!(!score_is_valid(0x3F80_0001));
    assert!(!score_is_valid(0x8000_0001));
    assert!(!score_is_valid(u32::MAX));
}

#[test]
fn recommendation_fields_are_checked_in_order() {
    let half = 0.5f32.to_bits();
    let two = 2.0f32.to_bits();
    assert_eq!(validate_recommendation(two, &"r".repeat(129)), Err(SpotifyError::ReasonTooLong));
    assert_eq!(validate_recommendation(two, &"r".repeat(128)), Err(SpotifyError::InvalidScore));
    assert_eq!(validate_recommendation(half, &"r".repeat(128)), Ok(()));
}

#[test]
fn recommendation_is_stored_unviewed_and_once() {
    let mut ledger = empty_ledger();
    let user = who(1);
    let target = who(30);
    let score = 0.75f32.to_bits();
    let r = program::create_recommendation(
        &mut ledger,
        &user,
        Recommendation::TYPE_PLAYLIST,
        target,
        score,
        "because".to_string(),
        50,
    );
    assert_eq!(r, Ok(()));
    let ctx = CreateRecommendation::resolve(&ledger.program_id, &user, &target, 2).unwrap();
    assert_eq!(
        *ledger.recommendations.get(&ctx.recommendation).unwrap(),
        Recommendation {
            user,
            recommendation_type: 2,
            target,
            score,
            reason: "because".to_string(),
            created_at: 50,
            is_viewed: false,
        }
    );
    assert_eq!(f32::from_bits(ledger.recommendations.get(&ctx.recommendation).unwrap().score), 0.75);
    let again = program::create_recommendation(&mut ledger, &user, 2, target, score, "again".to_string(), 51);
    assert_eq!(again, Err(LedgerError::AlreadyExists));
    let other_type = program::create_recommendation(&mut ledger, &user, 1, target, score, "other".to_string(), 51);
    assert_eq!(other_type, Ok(()));
}

#[test]
fn recommendation_with_a_score_outside_the_unit_interval_is_refused() {
    let mut ledger = empty_ledger();
    for bad in [1.5f32, -0.5, f32::NAN, f32::INFINITY] {
        let r = program::create_recommendation(&mut ledger, &who(1), 1, who(30), bad.to_bits(), String::new(), 50);
        assert_eq!(r, Err(LedgerError::Program(SpotifyError::InvalidScore)));
    }
    let ctx = CreateRecommendation::resolve(&ledger.program_id, &who(1), &who(30), 1).unwrap();
    assert!(!ledger.recommendations.contains(&ctx.recommendation));
}

#[test]
fn insights_are_marked_as_placeholders() {
    let mut ledger = empty_ledger();
    let user = who(1);
    let r = program::generate_user_insights(&mut ledger, &user, 70);
    assert_eq!(r, Ok(InsightSource::Placeholder));
    let ctx = GenerateUserInsights::resolve(&ledger.program_id, &user).unwrap();
    assert_eq!(
        *ledger.insights.get(&ctx.user_insights).unwrap(),
        UserInsights {
            user,
            total_listening_time: 0,
            favorite_genre: "Unknown".to_string(),
            most_played_track: None,
            discovery_score: 0.5f32.to_bits(),
            social_engagement: 0.5f32.to_bits(),
            generated_at: 70,
        }
    );
    assert_eq!(
        *ledger.stats.get(&ctx.user_stats).unwrap(),
        UserStats {
            user,
            tracks_created: 0,
            playlists_created: 0,
            total_likes_received: 0,
            total_plays: 0,
            last_active: 70,
        }
    );
}

#[test]
fn insights_keep_existing_statistics_and_are_regenerated_in_place() {
    let mut ledger = empty_ledger();
    let user = who(1);
    program::create_user_profile(
        &mut ledger,
        &user,
        "u".to_string(),
        String::new(),
        String::new(),
        String::new(),
        5,
    )
    .unwrap();
    let ctx = GenerateUserInsights::resolve(&ledger.program_id, &user).unwrap();
    let before = *ledger.stats.get(&ctx.user_stats).unwrap();
    assert_eq!(program::generate_user_insights(&mut ledger, &user, 70), Ok(InsightSource::Placeholder));
    assert_eq!(program::generate_user_insights(&mut ledger, &user, 80), Ok(InsightSource::Placeholder));
    assert_eq!(*ledger.stats.get(&ctx.user_stats).unwrap(), before);
    assert_eq!(ledger.insights.get(&ctx.user_insights).unwrap().generated_at, 80);
}

#[test]
fn placeholder_figures() {
    let stats = UserStats {
        user: who(1),
        tracks_created: 9,
        playlists_created: 9,
        total_likes_received: 9,
        total_plays: 9,
        last_active: 9,
    };
    assert_eq!(calculate_total_listening_time(&stats), 0);
    assert_eq!(determine_favorite_genre(&who(1)), "Unknown");
    assert_eq!(find_most_played_track(&who(1)), None);
    assert_eq!(f32::from_bits(calculate_discovery_score(&stats)), 0.5);
    assert_eq!(f32::from_bits(calculate_social_engagement(&stats)), 0.5);
}

#[test]
fn lookup_finds_what_was_indexed_whatever_the_case() {
    let mut ledger = empty_ledger();
    assert_eq!(lookup(&ledger, &"Jazz".to_string(), 1), None);
    program::create_search_index(&mut ledger, &who(1), "Jazz".to_string(), 1, who(10), 9).unwrap();
    assert_eq!(lookup(&ledger, &"jazz".to_string(), 1), Some(who(10)));
    assert_eq!(lookup(&ledger, &"JAZZ".to_string(), 1), Some(who(10)));
    assert_eq!(lookup(&ledger, &"jazz".to_string(), 2), None);
    assert_eq!(lookup(&ledger, &"jaz".to_string(), 1), None);
    assert_eq!(lookup_term(&ledger, &"JAZZ".to_string(), 1), None);
    assert_eq!(lookup_term(&ledger, &"jazz".to_string(), 1), Some(who(10)));
    assert_eq!(lookup(&ledger, &"j".repeat(40), 1), None);
    program::create_search_index(&mut ledger, &who(2), "jAzz".to_string(), 1, who(11), 10).unwrap();
    assert_eq!(lookup(&ledger, &"Jazz".to_string(), 1), Some(who(11)));
}
