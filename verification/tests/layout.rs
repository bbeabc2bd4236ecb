use anchor_lang::solana_program::hash::hash;
use anchor_lang::AnchorSerialize;
use spotify_dapp::address::Address;
use spotify_dapp::layout::{
    decode, decode_fields, decode_value, discriminator_of, encode, encode_fields, encode_value,
    Kind, LayoutError, Record, Value,
};
use spotify_dapp::state::{
    ActivityFeed, Playlist, PlaylistCollaborator, PlaylistLike, PlaylistTrack, Recommendation,
    SearchIndex, Track, TrackLike, TrackPlay, UserFollow, UserInsights, UserProfile, UserStats,
};

fn at(n: u8) -> Address {
    let mut bytes = [n; 32];
    bytes[0] = 0;
    bytes[31] = 255;
    Address::new(bytes)
}

fn sample_track() -> Track {
    Track {
        title: "Blue in Green".to_string(),
        artist: "Miles".to_string(),
        album: "Kind of Blue".to_string(),
        genre: "jazz ♫".to_string(),
        duration: 337,
        audio_url: "https://a/1".to_string(),
        cover_image: String::new(),
        likes_count: 0x0102_0304_0506_0708,
        plays_count: u64::MAX,
        created_by: at(7),
        created_at: -3,
    }
}

fn borsh<T: AnchorSerialize>(value: &T) -> Vec<u8> {
    value.try_to_vec().unwrap()
}

#[test]
fn discriminator_is_the_start_of_the_digest_of_the_tagged_name() {
    assert_eq!(discriminator_of("Track"), hash(b"account:Track").to_bytes()[..8].to_vec());
    assert_eq!(discriminator_of("UserProfile"), hash(b"account:UserProfile").to_bytes()[..8].to_vec());
    assert_ne!(discriminator_of("Track"), discriminator_of("TrackPlay"));
    assert_ne!(discriminator_of("Track"), b"account:".to_vec());
}

#[test]
fn track_bytes_are_discriminator_then_fields_in_order() {
    let t = sample_track();
    let mut expected = hash(b"account:Track").to_bytes()[..8].to_vec();
    expected.extend(borsh(&t.title));
    expected.extend(borsh(&t.artist));
    expected.extend(borsh(&t.album));
    expected.extend(borsh(&t.genre));
    expected.extend(borsh(&t.duration));
    expected.extend(borsh(&t.audio_url));
    expected.extend(borsh(&t.cover_image));
    expected.extend(borsh(&t.likes_count));
    expected.extend(borsh(&t.plays_count));
    expected.extend(borsh(&t.created_by.bytes));
    expected.extend(borsh(&t.created_at));
    assert_eq!(encode(&t), Ok(expected));
}

#[test]
fn insights_bytes_hold_the_optional_address_and_the_score_bits() {
    let i = UserInsights {
        user: at(1),
        total_listening_time: 9,
        favorite_genre: "Unknown".to_string(),
        most_played_track: Some(at(2)),
        discovery_score: 0.5f32.to_bits(),
        social_engagement: 0.25f32.to_bits(),
        generated_at: 77,
    };
    let mut expected = hash(b"account:UserInsights").to_bytes()[..8].to_vec();
    expected.extend(borsh(&i.user.bytes));
    expected.extend(borsh(&9u64));
    expected.extend(borsh(&"Unknown".to_string()));
    expected.extend(borsh(&Some(at(2).bytes)));
    expected.extend(borsh(&0.5f32));
    expected.extend(borsh(&0.25f32));
    expected.extend(borsh(&77i64));
    assert_eq!(encode(&i), Ok(expected));
    let none = UserInsights { most_played_track: None, ..i.clone() };
    let bytes = encode(&none).unwrap();
    assert_eq!(bytes.len(), encode(&i).unwrap().len() - 32);
    assert_eq!(decode::<UserInsights>(&bytes), Ok(none));
}

fn round_trip<R: Record + Clone + PartialEq + std::fmt::Debug>(record: R, max_size: usize) {
    let bytes = encode(&record).unwrap();
    assert!(bytes.len() <= max_size);
    assert_eq!(decode::<R>(&bytes), Ok(record.clone()));
    let mut padded = bytes.clone();
    padded.resize(max_size, 0);
    assert_eq!(decode::<R>(&padded), Ok(record.clone()));
    let mut wrong = bytes.clone();
    wrong[0] ^= 1;
    assert_eq!(decode::<R>(&wrong), Err(LayoutError::CorruptRecord));
    assert_eq!(decode::<R>(&bytes[..bytes.len() - 1]), Err(LayoutError::CorruptRecord));
    assert_eq!(decode::<R>(&bytes[..7]), Err(LayoutError::CorruptRecord));
    assert_eq!(decode::<R>(&[]), Err(LayoutError::CorruptRecord));
}

#[test]
fn every_record_type_round_trips() {
    round_trip(sample_track(), Track::MAX_SIZE);
    round_trip(
        UserProfile {
            authority: at(1),
            username: "alice".to_string(),
            display_name: "Alice Å".to_string(),
            bio: "b".repeat(256),
            profile_image: String::new(),
            followers_count: 3,
            following_count: 4,
            created_at: i64::MIN,
        },
        UserProfile::MAX_SIZE,
    );
    round_trip(
        UserStats {
            user: at(1),
            tracks_created: 1,
            playlists_created: 2,
            total_likes_received: 3,
            total_plays: 4,
            last_active: i64::MAX,
        },
        UserStats::MAX_SIZE,
    );
    round_trip(
        TrackPlay {
            track: at(1),
            user: at(2),
            play_count: 5,
            total_duration: 6,
            first_played_at: -7,
            last_played_at: 8,
        },
        TrackPlay::MAX_SIZE,
    );
    round_trip(
        Playlist {
            authority: at(1),
            name: "Mix".to_string(),
            description: "d".to_string(),
            is_public: true,
            tracks_count: 1,
            likes_count: 2,
            plays_count: 3,
            is_collaborative: false,
            created_at: 4,
            updated_at: 5,
        },
        Playlist::MAX_SIZE,
    );
    round_trip(
        PlaylistTrack { playlist: at(1), track: at(2), added_by: at(3), added_at: 4, position: 5 },
        PlaylistTrack::MAX_SIZE,
    );
    round_trip(
        PlaylistCollaborator { playlist: at(1), user: at(2), permissions: 7, added_at: 4 },
        PlaylistCollaborator::MAX_SIZE,
    );
    round_trip(TrackLike { user: at(1), track: at(2), created_at: 3 }, TrackLike::MAX_SIZE);
    round_trip(PlaylistLike { user: at(1), playlist: at(2), created_at: 3 }, PlaylistLike::MAX_SIZE);
    round_trip(UserFollow { follower: at(1), following: at(2), created_at: 3 }, UserFollow::MAX_SIZE);
    round_trip(
        ActivityFeed {
            user: at(1),
            activity_type: ActivityFeed::ACTIVITY_TRACK_LIKED,
            target: at(2),
            metadata: "Liked track: x".to_string(),
            created_at: 3,
        },
        ActivityFeed::MAX_SIZE,
    );
    round_trip(
        SearchIndex { search_term: "jazz".to_string(), target_type: 1, target_pubkey: at(2), created_at: 3 },
        SearchIndex::MAX_SIZE,
    );
    round_trip(
        UserInsights {
            user: at(1),
            total_listening_time: 2,
            favorite_genre: "Unknown".to_string(),
            most_played_track: Some(at(3)),
            discovery_score: 0.5f32.to_bits(),
            social_engagement: 1.0f32.to_bits(),
            generated_at: 4,
        },
        UserInsights::MAX_SIZE,
    );
    round_trip(
        Recommendation {
            user: at(1),
            recommendation_type: 2,
            target: at(3),
            score: 0.75f32.to_bits(),
            reason: "r".repeat(128),
            created_at: 4,
            is_viewed: true,
        },
        Recommendation::MAX_SIZE,
    );
}

#[test]
fn record_at_its_widest_takes_exactly_the_reserved_size() {
    let widest = Track {
        title: "t".repeat(128),
        artist: "a".repeat(64),
        album: "b".repeat(64),
        genre: "g".repeat(32),
        duration: 1,
        audio_url: "u".repeat(256),
        cover_image: "c".repeat(256),
        likes_count: 0,
        plays_count: 0,
        created_by: at(1),
        created_at: 0,
    };
    assert_eq!(encode(&widest).unwrap().len(), Track::MAX_SIZE);
    assert_eq!(Track::MAX_SIZE, 896);
    assert_eq!(Playlist::MAX_SIZE, 410);
    assert_eq!(UserProfile::MAX_SIZE, 688);
    assert_eq!(UserInsights::MAX_SIZE, 133);
    assert_eq!(Recommendation::MAX_SIZE, 218);
    assert_eq!(SearchIndex::MAX_SIZE, 117);
    assert_eq!(ActivityFeed::MAX_SIZE, 149);
}

#[test]
fn text_wider_than_its_field_is_too_long_to_encode() {
    let mut t = sample_track();
    t.genre = "g".repeat(33);
    assert_eq!(encode(&t), Err(LayoutError::FieldTooLong));
    t.genre = "g".repeat(32);
    assert!(encode(&t).is_ok());
    t.title = "é".repeat(65);
    assert_eq!(encode(&t), Err(LayoutError::FieldTooLong));
    t.title = "é".repeat(64);
    assert!(encode(&t).is_ok());
}

#[test]
fn stored_text_wider_than_its_field_is_corrupt() {
    let like_bytes = |term: &str| {
        let mut bytes = hash(b"account:SearchIndex").to_bytes()[..8].to_vec();
        bytes.extend(borsh(&term.to_string()));
        bytes.push(1);
        bytes.extend([9u8; 32]);
        bytes.extend(borsh(&5i64));
        bytes
    };
    assert_eq!(
        decode::<SearchIndex>(&like_bytes(&"s".repeat(64))),
        Ok(SearchIndex {
            search_term: "s".repeat(64),
            target_type: 1,
            target_pubkey: Address::new([9; 32]),
            created_at: 5,
        })
    );
    assert_eq!(decode::<SearchIndex>(&like_bytes(&"s".repeat(65))), Err(LayoutError::CorruptRecord));
}

#[test]
fn single_values_decode_only_from_their_own_encodings() {
    assert_eq!(decode_value(&Kind::Bool, &[0], 0), Some((Value::Bool(false), 1)));
    assert_eq!(decode_value(&Kind::Bool, &[9, 1], 1), Some((Value::Bool(true), 2)));
    assert_eq!(decode_value(&Kind::Bool, &[2], 0), None);
    assert_eq!(decode_value(&Kind::Bool, &[1], 1), None);
    assert_eq!(decode_value(&Kind::U8, &[200], 0), Some((Value::U8(200), 1)));
    assert_eq!(decode_value(&Kind::U32, &[1, 2, 3, 4], 0), Some((Value::U32(0x0403_0201), 4)));
    assert_eq!(decode_value(&Kind::U32, &[1, 2, 3], 0), None);
    assert_eq!(decode_value(&Kind::U64, &[1, 0, 0, 0, 0, 0, 0, 0x80], 0), Some((Value::U64(0x8000_0000_0000_0001), 8)));
    assert_eq!(decode_value(&Kind::I64, &[255; 8], 0), Some((Value::I64(-1), 8)));
    assert_eq!(decode_value(&Kind::I64, &[0, 0, 0, 0, 0, 0, 0, 0x80], 0), Some((Value::I64(i64::MIN), 8)));
    assert_eq!(decode_value(&Kind::U64, &[255; 7], 0), None);
    assert_eq!(decode_value(&Kind::Address, &[3; 32], 0), Some((Value::Address(Address::new([3; 32])), 32)));
    assert_eq!(decode_value(&Kind::Address, &[3; 31], 0), None);
    assert_eq!(decode_value(&Kind::OptionalAddress, &[0, 7], 0), Some((Value::OptionalAddress(None), 1)));
    let mut some = vec![1u8];
    some.extend([4u8; 32]);
    assert_eq!(
        decode_value(&Kind::OptionalAddress, &some, 0),
        Some((Value::OptionalAddress(Some(Address::new([4; 32]))), 33))
    );
    assert_eq!(decode_value(&Kind::OptionalAddress, &some[..32], 0), None);
    assert_eq!(decode_value(&Kind::OptionalAddress, &[2], 0), None);
    let text = Kind::Text { max: 4 };
    assert_eq!(decode_value(&text, &[2, 0, 0, 0, b'h', b'i', b'!'], 0), Some((Value::Text("hi".to_string()), 6)));
    assert_eq!(decode_value(&text, &[0, 0, 0, 0], 0), Some((Value::Text(String::new()), 4)));
    assert_eq!(decode_value(&text, &[5, 0, 0, 0, b'h', b'e', b'l', b'l', b'o'], 0), None);
    assert_eq!(decode_value(&text, &[3, 0, 0, 0, b'h', b'i'], 0), None);
    assert_eq!(decode_value(&text, &[2, 0, 0, 0, 0xC3, 0x28], 0), None);
    assert_eq!(decode_value(&text, &[2, 0, 0, 0, 0xC3, 0xA9], 0), Some((Value::Text("é".to_string()), 6)));
    assert_eq!(decode_value(&text, &[2, 0, 0], 0), None);
}

#[test]
fn single_values_encode_little_endian() {
    let mut out = vec![0xAAu8];
    assert_eq!(encode_value(&Kind::U32, &Value::U32(0x0403_0201), &mut out), Ok(()));
    assert_eq!(out, vec![0xAA, 1, 2, 3, 4]);
    assert_eq!(encode_value(&Kind::I64, &Value::I64(-2), &mut out), Ok(()));
    assert_eq!(out[5..], [254, 255, 255, 255, 255, 255, 255, 255]);
    let mut out = Vec::new();
    assert_eq!(encode_value(&Kind::Text { max: 2 }, &Value::Text("hi".to_string()), &mut out), Ok(()));
    assert_eq!(out, vec![2, 0, 0, 0, b'h', b'i']);
    assert_eq!(
        encode_value(&Kind::Text { max: 2 }, &Value::Text("hey".to_string()), &mut out),
        Err(LayoutError::FieldTooLong)
    );
    assert_eq!(
        encode_value(&Kind::U8, &Value::Text("h".to_string()), &mut out),
        Err(LayoutError::SchemaMismatch)
    );
    assert_eq!(out, vec![2, 0, 0, 0, b'h', b'i']);
    assert_eq!(encode_value(&Kind::Bool, &Value::Bool(true), &mut out), Ok(()));
    assert_eq!(encode_value(&Kind::OptionalAddress, &Value::OptionalAddress(None), &mut out), Ok(()));
    assert_eq!(out[6..], [1, 0]);
}

#[test]
fn field_lists_must_match_their_schema() {
    let schema = vec![Kind::U8, Kind::Text { max: 3 }];
    let good = vec![Value::U8(1), Value::Text("abc".to_string())];
    assert_eq!(encode_fields(&schema, &good), Ok(vec![1, 3, 0, 0, 0, b'a', b'b', b'c']));
    let long = vec![Value::U8(1), Value::Text("abcd".to_string())];
    assert_eq!(encode_fields(&schema, &long), Err(LayoutError::FieldTooLong));
    let short = vec![Value::U8(1)];
    assert_eq!(encode_fields(&schema, &short), Err(LayoutError::SchemaMismatch));
    let swapped = vec![Value::Text("abcd".to_string()), Value::U8(1)];
    assert_eq!(encode_fields(&schema, &swapped), Err(LayoutError::SchemaMismatch));
    let bytes = [9u8, 1, 3, 0, 0, 0, b'a', b'b', b'c', 0, 0];
    assert_eq!(decode_fields(&schema, &bytes, 1), Some((good, 9)));
    assert_eq!(decode_fields(&schema, &bytes, 0), None);
    assert_eq!(decode_fields(&schema, &bytes[..8], 1), None);
    assert_eq!(decode_fields(&vec![], &bytes, 4), Some((vec![], 4)));
}

#[test]
fn a_record_of_one_type_does_not_decode_as_another() {
    let like = TrackLike { user: at(1), track: at(2), created_at: 3 };
    let bytes = encode(&like).unwrap();
    assert_eq!(decode::<UserFollow>(&bytes), Err(LayoutError::CorruptRecord));
    assert_eq!(decode::<PlaylistLike>(&bytes), Err(LayoutError::CorruptRecord));
    assert_eq!(decode::<TrackLike>(&bytes), Ok(like));
}

#[test]
fn known_discriminators() {
    assert_eq!(discriminator_of("Track"), vec![148, 45, 9, 235, 14, 15, 36, 159]);
    assert_eq!(discriminator_of("UserProfile"), vec![32, 37, 119, 205, 179, 180, 13, 194]);
    assert_eq!(discriminator_of("UserStats"), vec![176, 223, 136, 27, 122, 79, 32, 227]);
    assert_eq!(UserStats::name(), "UserStats");
    let stats = UserStats {
        user: Address::new([0; 32]),
        tracks_created: 1,
        playlists_created: 0,
        total_likes_received: 0,
        total_plays: 0,
        last_active: 0,
    };
    let bytes = encode(&stats).unwrap();
    assert_eq!(bytes.len(), UserStats::MAX_SIZE);
    assert_eq!(bytes[..8], [176, 223, 136, 27, 122, 79, 32, 227]);
    assert_eq!(bytes[8..40], [0; 32]);
    assert_eq!(bytes[40..48], [1, 0, 0, 0, 0, 0, 0, 0]);
}
