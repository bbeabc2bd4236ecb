//! The field list of every record type, in stored order.

use crate::layout::fields::{max_fields_width, views};
use crate::layout::record::{
    address_field, bool_field, encodable, i64_field, optional_address_field, text_field,
    u32_field, u64_field, u8_field, Record,
};
use crate::layout::wire::{fits, max_width, Kind, Value, ValueView};
use crate::state::{
    ActivityFeed, ActivityFeedView, Playlist, PlaylistCollaborator, PlaylistLike, PlaylistTrack,
    PlaylistView, Recommendation, RecommendationView, SearchIndex, SearchIndexView, Track,
    TrackLike, TrackPlay, TrackView, UserFollow, UserInsights, UserInsightsView, UserProfile,
    UserProfileView, UserStats,
};
use vstd::prelude::*;

verus! {

/// Adding a field to a list adds its width to the list's.
pub proof fn lemma_width_push(schema: Seq<Kind>, kind: Kind)
    ensures
        max_fields_width(schema.push(kind)) == max_fields_width(schema) + max_width(kind),
{
    assert(schema.push(kind).drop_last() =~= schema);
}

impl Record for UserProfile {
    open spec fn label() -> Seq<char> {
        "UserProfile"@
    }

    open spec fn schema() -> Seq<Kind> {
        seq![
            Kind::Address,
            Kind::Text { max: 32 },
            Kind::Text { max: 64 },
            Kind::Text { max: 256 },
            Kind::Text { max: 256 },
            Kind::U64,
            Kind::U64,
            Kind::I64,
        ]
    }

    open spec fn values(v: UserProfileView) -> Seq<ValueView> {
        seq![
            ValueView::Address(v.authority),
            ValueView::Text(v.username),
            ValueView::Text(v.display_name),
            ValueView::Text(v.bio),
            ValueView::Text(v.profile_image),
            ValueView::U64(v.followers_count),
            ValueView::U64(v.following_count),
            ValueView::I64(v.created_at),
        ]
    }

    open spec fn max_size() -> nat {
        UserProfile::MAX_SIZE as nat
    }

    proof fn lemma_values_injective(a: UserProfileView, b: UserProfileView) {
        assert(Self::values(a)[0] == Self::values(b)[0]);
        assert(Self::values(a)[1] == Self::values(b)[1]);
        assert(Self::values(a)[2] == Self::values(b)[2]);
        assert(Self::values(a)[3] == Self::values(b)[3]);
        assert(Self::values(a)[4] == Self::values(b)[4]);
        assert(Self::values(a)[5] == Self::values(b)[5]);
        assert(Self::values(a)[6] == Self::values(b)[6]);
        assert(Self::values(a)[7] == Self::values(b)[7]);
    }

    proof fn lemma_max_size() {
        let s0 = Seq::<Kind>::empty();
        lemma_width_push(s0, Kind::Address);
        let s1 = s0.push(Kind::Address);
        lemma_width_push(s1, Kind::Text { max: 32 });
        let s2 = s1.push(Kind::Text { max: 32 });
        lemma_width_push(s2, Kind::Text { max: 64 });
        let s3 = s2.push(Kind::Text { max: 64 });
        lemma_width_push(s3, Kind::Text { max: 256 });
        let s4 = s3.push(Kind::Text { max: 256 });
        lemma_width_push(s4, Kind::Text { max: 256 });
        let s5 = s4.push(Kind::Text { max: 256 });
        lemma_width_push(s5, Kind::U64);
        let s6 = s5.push(Kind::U64);
        lemma_width_push(s6, Kind::U64);
        let s7 = s6.push(Kind::U64);
        lemma_width_push(s7, Kind::I64);
        let s8 = s7.push(Kind::I64);
        assert(Self::schema() =~= s8);
    }

    fn name() -> &'static str {
        "UserProfile"
    }

    fn fields() -> Vec<Kind> {
        let mut s: Vec<Kind> = Vec::new();
        s.push(Kind::Address);
        s.push(Kind::Text { max: 32 });
        s.push(Kind::Text { max: 64 });
        s.push(Kind::Text { max: 256 });
        s.push(Kind::Text { max: 256 });
        s.push(Kind::U64);
        s.push(Kind::U64);
        s.push(Kind::I64);
        assert(s@ =~= Self::schema());
        s
    }

    fn to_values(&self) -> Vec<Value> {
        let mut vs: Vec<Value> = Vec::new();
        vs.push(Value::Address(self.authority));
        vs.push(Value::Text(self.username.clone()));
        vs.push(Value::Text(self.display_name.clone()));
        vs.push(Value::Text(self.bio.clone()));
        vs.push(Value::Text(self.profile_image.clone()));
        vs.push(Value::U64(self.followers_count));
        vs.push(Value::U64(self.following_count));
        vs.push(Value::I64(self.created_at));
        assert(views(vs@) =~= Self::values(self@));
        vs
    }

    fn from_values(vs: Vec<Value>) -> UserProfile {
        proof {
            assert(fits(Self::schema()[0], views(vs@)[0]));
            assert(fits(Self::schema()[1], views(vs@)[1]));
            assert(fits(Self::schema()[2], views(vs@)[2]));
            assert(fits(Self::schema()[3], views(vs@)[3]));
            assert(fits(Self::schema()[4], views(vs@)[4]));
            assert(fits(Self::schema()[5], views(vs@)[5]));
            assert(fits(Self::schema()[6], views(vs@)[6]));
            assert(fits(Self::schema()[7], views(vs@)[7]));
        }
        let r = UserProfile {
            authority: address_field(&vs, 0),
            username: text_field(&vs, 1),
            display_name: text_field(&vs, 2),
            bio: text_field(&vs, 3),
            profile_image: text_field(&vs, 4),
            followers_count: u64_field(&vs, 5),
            following_count: u64_field(&vs, 6),
            created_at: i64_field(&vs, 7),
        };
        assert(Self::values(r@) =~= views(vs@));
        r
    }
}

/// Where a profile keeps the bounds of its type, every text is within its field.
pub proof fn law_user_profile_is_encodable(v: UserProfileView)
    requires
        v.wf(),
    ensures
        encodable::<UserProfile>(v),
{
}

impl Record for UserStats {
    open spec fn label() -> Seq<char> {
        "UserStats"@
    }

    open spec fn schema() -> Seq<Kind> {
        seq![
            Kind::Address,
            Kind::U64,
            Kind::U64,
            Kind::U64,
            Kind::U64,
            Kind::I64,
        ]
    }

    open spec fn values(v: UserStats) -> Seq<ValueView> {
        seq![
            ValueView::Address(v.user),
            ValueView::U64(v.tracks_created),
            ValueView::U64(v.playlists_created),
            ValueView::U64(v.total_likes_received),
            ValueView::U64(v.total_plays),
            ValueView::I64(v.last_active),
        ]
    }

    open spec fn max_size() -> nat {
        UserStats::MAX_SIZE as nat
    }

    proof fn lemma_values_injective(a: UserStats, b: UserStats) {
        assert(Self::values(a)[0] == Self::values(b)[0]);
        assert(Self::values(a)[1] == Self::values(b)[1]);
        assert(Self::values(a)[2] == Self::values(b)[2]);
        assert(Self::values(a)[3] == Self::values(b)[3]);
        assert(Self::values(a)[4] == Self::values(b)[4]);
        assert(Self::values(a)[5] == Self::values(b)[5]);
    }

    proof fn lemma_max_size() {
        let s0 = Seq::<Kind>::empty();
        lemma_width_push(s0, Kind::Address);
        let s1 = s0.push(Kind::Address);
        lemma_width_push(s1, Kind::U64);
        let s2 = s1.push(Kind::U64);
        lemma_width_push(s2, Kind::U64);
        let s3 = s2.push(Kind::U64);
        lemma_width_push(s3, Kind::U64);
        let s4 = s3.push(Kind::U64);
        lemma_width_push(s4, Kind::U64);
        let s5 = s4.push(Kind::U64);
        lemma_width_push(s5, Kind::I64);
        let s6 = s5.push(Kind::I64);
        assert(Self::schema() =~= s6);
    }

    fn name() -> &'static str {
        "UserStats"
    }

    fn fields() -> Vec<Kind> {
        let mut s: Vec<Kind> = Vec::new();
        s.push(Kind::Address);
        s.push(Kind::U64);
        s.push(Kind::U64);
        s.push(Kind::U64);
        s.push(Kind::U64);
        s.push(Kind::I64);
        assert(s@ =~= Self::schema());
        s
    }

    fn to_values(&self) -> Vec<Value> {
        let mut vs: Vec<Value> = Vec::new();
        vs.push(Value::Address(self.user));
        vs.push(Value::U64(self.tracks_created));
        vs.push(Value::U64(self.playlists_created));
        vs.push(Value::U64(self.total_likes_received));
        vs.push(Value::U64(self.total_plays));
        vs.push(Value::I64(self.last_active));
        assert(views(vs@) =~= Self::values(self@));
        vs
    }

    fn from_values(vs: Vec<Value>) -> UserStats {
        proof {
            assert(fits(Self::schema()[0], views(vs@)[0]));
            assert(fits(Self::schema()[1], views(vs@)[1]));
            assert(fits(Self::schema()[2], views(vs@)[2]));
            assert(fits(Self::schema()[3], views(vs@)[3]));
            assert(fits(Self::schema()[4], views(vs@)[4]));
            assert(fits(Self::schema()[5], views(vs@)[5]));
        }
        let r = UserStats {
            user: address_field(&vs, 0),
            tracks_created: u64_field(&vs, 1),
            playlists_created: u64_field(&vs, 2),
            total_likes_received: u64_field(&vs, 3),
            total_plays: u64_field(&vs, 4),
            last_active: i64_field(&vs, 5),
        };
        assert(Self::values(r@) =~= views(vs@));
        r
    }
}

/// No field of statistics has a bound to exceed.
pub proof fn law_user_stats_is_encodable(v: UserStats)
    ensures
        encodable::<UserStats>(v),
{
}

impl Record for Track {
    open spec fn label() -> Seq<char> {
        "Track"@
    }

    open spec fn schema() -> Seq<Kind> {
        seq![
            Kind::Text { max: 128 },
            Kind::Text { max: 64 },
            Kind::Text { max: 64 },
            Kind::Text { max: 32 },
            Kind::U64,
            Kind::Text { max: 256 },
            Kind::Text { max: 256 },
            Kind::U64,
            Kind::U64,
            Kind::Address,
            Kind::I64,
        ]
    }

    open spec fn values(v: TrackView) -> Seq<ValueView> {
        seq![
            ValueView::Text(v.title),
            ValueView::Text(v.artist),
            ValueView::Text(v.album),
            ValueView::Text(v.genre),
            ValueView::U64(v.duration),
            ValueView::Text(v.audio_url),
            ValueView::Text(v.cover_image),
            ValueView::U64(v.likes_count),
            ValueView::U64(v.plays_count),
            ValueView::Address(v.created_by),
            ValueView::I64(v.created_at),
        ]
    }

    open spec fn max_size() -> nat {
        Track::MAX_SIZE as nat
    }

    proof fn lemma_values_injective(a: TrackView, b: TrackView) {
        assert(Self::values(a)[0] == Self::values(b)[0]);
        assert(Self::values(a)[1] == Self::values(b)[1]);
        assert(Self::values(a)[2] == Self::values(b)[2]);
        assert(Self::values(a)[3] == Self::values(b)[3]);
        assert(Self::values(a)[4] == Self::values(b)[4]);
        assert(Self::values(a)[5] == Self::values(b)[5]);
        assert(Self::values(a)[6] == Self::values(b)[6]);
        assert(Self::values(a)[7] == Self::values(b)[7]);
        assert(Self::values(a)[8] == Self::values(b)[8]);
        assert(Self::values(a)[9] == Self::values(b)[9]);
        assert(Self::values(a)[10] == Self::values(b)[10]);
    }

    proof fn lemma_max_size() {
        let s0 = Seq::<Kind>::empty();
        lemma_width_push(s0, Kind::Text { max: 128 });
        let s1 = s0.push(Kind::Text { max: 128 });
        lemma_width_push(s1, Kind::Text { max: 64 });
        let s2 = s1.push(Kind::Text { max: 64 });
        lemma_width_push(s2, Kind::Text { max: 64 });
        let s3 = s2.push(Kind::Text { max: 64 });
        lemma_width_push(s3, Kind::Text { max: 32 });
        let s4 = s3.push(Kind::Text { max: 32 });
        lemma_width_push(s4, Kind::U64);
        let s5 = s4.push(Kind::U64);
        lemma_width_push(s5, Kind::Text { max: 256 });
        let s6 = s5.push(Kind::Text { max: 256 });
        lemma_width_push(s6, Kind::Text { max: 256 });
        let s7 = s6.push(Kind::Text { max: 256 });
        lemma_width_push(s7, Kind::U64);
        let s8 = s7.push(Kind::U64);
        lemma_width_push(s8, Kind::U64);
        let s9 = s8.push(Kind::U64);
        lemma_width_push(s9, Kind::Address);
        let s10 = s9.push(Kind::Address);
        lemma_width_push(s10, Kind::I64);
        let s11 = s10.push(Kind::I64);
        assert(Self::schema() =~= s11);
    }

    fn name() -> &'static str {
        "Track"
    }

    fn fields() -> Vec<Kind> {
        let mut s: Vec<Kind> = Vec::new();
        s.push(Kind::Text { max: 128 });
        s.push(Kind::Text { max: 64 });
        s.push(Kind::Text { max: 64 });
        s.push(Kind::Text { max: 32 });
        s.push(Kind::U64);
        s.push(Kind::Text { max: 256 });
        s.push(Kind::Text { max: 256 });
        s.push(Kind::U64);
        s.push(Kind::U64);
        s.push(Kind::Address);
        s.push(Kind::I64);
        assert(s@ =~= Self::schema());
        s
    }

    fn to_values(&self) -> Vec<Value> {
        let mut vs: Vec<Value> = Vec::new();
        vs.push(Value::Text(self.title.clone()));
        vs.push(Value::Text(self.artist.clone()));
        vs.push(Value::Text(self.album.clone()));
        vs.push(Value::Text(self.genre.clone()));
        vs.push(Value::U64(self.duration));
        vs.push(Value::Text(self.audio_url.clone()));
        vs.push(Value::Text(self.cover_image.clone()));
        vs.push(Value::U64(self.likes_count));
        vs.push(Value::U64(self.plays_count));
        vs.push(Value::Address(self.created_by));
        vs.push(Value::I64(self.created_at));
        assert(views(vs@) =~= Self::values(self@));
        vs
    }

    fn from_values(vs: Vec<Value>) -> Track {
        proof {
            assert(fits(Self::schema()[0], views(vs@)[0]));
            assert(fits(Self::schema()[1], views(vs@)[1]));
            assert(fits(Self::schema()[2], views(vs@)[2]));
            assert(fits(Self::schema()[3], views(vs@)[3]));
            assert(fits(Self::schema()[4], views(vs@)[4]));
            assert(fits(Self::schema()[5], views(vs@)[5]));
            assert(fits(Self::schema()[6], views(vs@)[6]));
            assert(fits(Self::schema()[7], views(vs@)[7]));
            assert(fits(Self::schema()[8], views(vs@)[8]));
            assert(fits(Self::schema()[9], views(vs@)[9]));
            assert(fits(Self::schema()[10], views(vs@)[10]));
        }
        let r = Track {
            title: text_field(&vs, 0),
            artist: text_field(&vs, 1),
            album: text_field(&vs, 2),
            genre: text_field(&vs, 3),
            duration: u64_field(&vs, 4),
            audio_url: text_field(&vs, 5),
            cover_image: text_field(&vs, 6),
            likes_count: u64_field(&vs, 7),
            plays_count: u64_field(&vs, 8),
            created_by: address_field(&vs, 9),
            created_at: i64_field(&vs, 10),
        };
        assert(Self::values(r@) =~= views(vs@));
        r
    }
}

/// Where a track keeps the bounds of its type, every text is within its field.
pub proof fn law_track_is_encodable(v: TrackView)
    requires
        v.wf(),
    ensures
        encodable::<Track>(v),
{
}

impl Record for TrackPlay {
    open spec fn label() -> Seq<char> {
        "TrackPlay"@
    }

    open spec fn schema() -> Seq<Kind> {
        seq![
            Kind::Address,
            Kind::Address,
            Kind::U64,
            Kind::U64,
            Kind::I64,
            Kind::I64,
        ]
    }

    open spec fn values(v: TrackPlay) -> Seq<ValueView> {
        seq![
            ValueView::Address(v.track),
            ValueView::Address(v.user),
            ValueView::U64(v.play_count),
            ValueView::U64(v.total_duration),
            ValueView::I64(v.first_played_at),
            ValueView::I64(v.last_played_at),
        ]
    }

    open spec fn max_size() -> nat {
        TrackPlay::MAX_SIZE as nat
    }

    proof fn lemma_values_injective(a: TrackPlay, b: TrackPlay) {
        assert(Self::values(a)[0] == Self::values(b)[0]);
        assert(Self::values(a)[1] == Self::values(b)[1]);
        assert(Self::values(a)[2] == Self::values(b)[2]);
        assert(Self::values(a)[3] == Self::values(b)[3]);
        assert(Self::values(a)[4] == Self::values(b)[4]);
        assert(Self::values(a)[5] == Self::values(b)[5]);
    }

    proof fn lemma_max_size() {
        let s0 = Seq::<Kind>::empty();
        lemma_width_push(s0, Kind::Address);
        let s1 = s0.push(Kind::Address);
        lemma_width_push(s1, Kind::Address);
        let s2 = s1.push(Kind::Address);
        lemma_width_push(s2, Kind::U64);
        let s3 = s2.push(Kind::U64);
        lemma_width_push(s3, Kind::U64);
        let s4 = s3.push(Kind::U64);
        lemma_width_push(s4, Kind::I64);
        let s5 = s4.push(Kind::I64);
        lemma_width_push(s5, Kind::I64);
        let s6 = s5.push(Kind::I64);
        assert(Self::schema() =~= s6);
    }

    fn name() -> &'static str {
        "TrackPlay"
    }

    fn fields() -> Vec<Kind> {
        let mut s: Vec<Kind> = Vec::new();
        s.push(Kind::Address);
        s.push(Kind::Address);
        s.push(Kind::U64);
        s.push(Kind::U64);
        s.push(Kind::I64);
        s.push(Kind::I64);
        assert(s@ =~= Self::schema());
        s
    }

    fn to_values(&self) -> Vec<Value> {
        let mut vs: Vec<Value> = Vec::new();
        vs.push(Value::Address(self.track));
        vs.push(Value::Address(self.user));
        vs.push(Value::U64(self.play_count));
        vs.push(Value::U64(self.total_duration));
        vs.push(Value::I64(self.first_played_at));
        vs.push(Value::I64(self.last_played_at));
        assert(views(vs@) =~= Self::values(self@));
        vs
    }

    fn from_values(vs: Vec<Value>) -> TrackPlay {
        proof {
            assert(fits(Self::schema()[0], views(vs@)[0]));
            assert(fits(Self::schema()[1], views(vs@)[1]));
            assert(fits(Self::schema()[2], views(vs@)[2]));
            assert(fits(Self::schema()[3], views(vs@)[3]));
            assert(fits(Self::schema()[4], views(vs@)[4]));
            assert(fits(Self::schema()[5], views(vs@)[5]));
        }
        let r = TrackPlay {
            track: address_field(&vs, 0),
            user: address_field(&vs, 1),
            play_count: u64_field(&vs, 2),
            total_duration: u64_field(&vs, 3),
            first_played_at: i64_field(&vs, 4),
            last_played_at: i64_field(&vs, 5),
        };
        assert(Self::values(r@) =~= views(vs@));
        r
    }
}

/// No field of a play aggregate has a bound to exceed.
pub proof fn law_track_play_is_encodable(v: TrackPlay)
    ensures
        encodable::<TrackPlay>(v),
{
}

impl Record for Playlist {
    open spec fn label() -> Seq<char> {
        "Playlist"@
    }

    open spec fn schema() -> Seq<Kind> {
        seq![
            Kind::Address,
            Kind::Text { max: 64 },
            Kind::Text { max: 256 },
            Kind::Bool,
            Kind::U64,
            Kind::U64,
            Kind::U64,
            Kind::Bool,
            Kind::I64,
            Kind::I64,
        ]
    }

    open spec fn values(v: PlaylistView) -> Seq<ValueView> {
        seq![
            ValueView::Address(v.authority),
            ValueView::Text(v.name),
            ValueView::Text(v.description),
            ValueView::Bool(v.is_public),
            ValueView::U64(v.tracks_count),
            ValueView::U64(v.likes_count),
            ValueView::U64(v.plays_count),
            ValueView::Bool(v.is_collaborative),
            ValueView::I64(v.created_at),
            ValueView::I64(v.updated_at),
        ]
    }

    open spec fn max_size() -> nat {
        Playlist::MAX_SIZE as nat
    }

    proof fn lemma_values_injective(a: PlaylistView, b: PlaylistView) {
        assert(Self::values(a)[0] == Self::values(b)[0]);
        assert(Self::values(a)[1] == Self::values(b)[1]);
        assert(Self::values(a)[2] == Self::values(b)[2]);
        assert(Self::values(a)[3] == Self::values(b)[3]);
        assert(Self::values(a)[4] == Self::values(b)[4]);
        assert(Self::values(a)[5] == Self::values(b)[5]);
        assert(Self::values(a)[6] == Self::values(b)[6]);
        assert(Self::values(a)[7] == Self::values(b)[7]);
        assert(Self::values(a)[8] == Self::values(b)[8]);
        assert(Self::values(a)[9] == Self::values(b)[9]);
    }

    proof fn lemma_max_size() {
        let s0 = Seq::<Kind>::empty();
        lemma_width_push(s0, Kind::Address);
        let s1 = s0.push(Kind::Address);
        lemma_width_push(s1, Kind::Text { max: 64 });
        let s2 = s1.push(Kind::Text { max: 64 });
        lemma_width_push(s2, Kind::Text { max: 256 });
        let s3 = s2.push(Kind::Text { max: 256 });
        lemma_width_push(s3, Kind::Bool);
        let s4 = s3.push(Kind::Bool);
        lemma_width_push(s4, Kind::U64);
        let s5 = s4.push(Kind::U64);
        lemma_width_push(s5, Kind::U64);
        let s6 = s5.push(Kind::U64);
        lemma_width_push(s6, Kind::U64);
        let s7 = s6.push(Kind::U64);
        lemma_width_push(s7, Kind::Bool);
        let s8 = s7.push(Kind::Bool);
        lemma_width_push(s8, Kind::I64);
        let s9 = s8.push(Kind::I64);
        lemma_width_push(s9, Kind::I64);
        let s10 = s9.push(Kind::I64);
        assert(Self::schema() =~= s10);
    }

    fn name() -> &'static str {
        "Playlist"
    }

    fn fields() -> Vec<Kind> {
        let mut s: Vec<Kind> = Vec::new();
        s.push(Kind::Address);
        s.push(Kind::Text { max: 64 });
        s.push(Kind::Text { max: 256 });
        s.push(Kind::Bool);
        s.push(Kind::U64);
        s.push(Kind::U64);
        s.push(Kind::U64);
        s.push(Kind::Bool);
        s.push(Kind::I64);
        s.push(Kind::I64);
        assert(s@ =~= Self::schema());
        s
    }

    fn to_values(&self) -> Vec<Value> {
        let mut vs: Vec<Value> = Vec::new();
        vs.push(Value::Address(self.authority));
        vs.push(Value::Text(self.name.clone()));
        vs.push(Value::Text(self.description.clone()));
        vs.push(Value::Bool(self.is_public));
        vs.push(Value::U64(self.tracks_count));
        vs.push(Value::U64(self.likes_count));
        vs.push(Value::U64(self.plays_count));
        vs.push(Value::Bool(self.is_collaborative));
        vs.push(Value::I64(self.created_at));
        vs.push(Value::I64(self.updated_at));
        assert(views(vs@) =~= Self::values(self@));
        vs
    }

    fn from_values(vs: Vec<Value>) -> Playlist {
        proof {
            assert(fits(Self::schema()[0], views(vs@)[0]));
            assert(fits(Self::schema()[1], views(vs@)[1]));
            assert(fits(Self::schema()[2], views(vs@)[2]));
            assert(fits(Self::schema()[3], views(vs@)[3]));
            assert(fits(Self::schema()[4], views(vs@)[4]));
            assert(fits(Self::schema()[5], views(vs@)[5]));
            assert(fits(Self::schema()[6], views(vs@)[6]));
            assert(fits(Self::schema()[7], views(vs@)[7]));
            assert(fits(Self::schema()[8], views(vs@)[8]));
            assert(fits(Self::schema()[9], views(vs@)[9]));
        }
        let r = Playlist {
            authority: address_field(&vs, 0),
            name: text_field(&vs, 1),
            description: text_field(&vs, 2),
            is_public: bool_field(&vs, 3),
            tracks_count: u64_field(&vs, 4),
            likes_count: u64_field(&vs, 5),
            plays_count: u64_field(&vs, 6),
            is_collaborative: bool_field(&vs, 7),
            created_at: i64_field(&vs, 8),
            updated_at: i64_field(&vs, 9),
        };
        assert(Self::values(r@) =~= views(vs@));
        r
    }
}

/// Where a playlist keeps the bounds of its type, every text is within its field.
pub proof fn law_playlist_is_encodable(v: PlaylistView)
    requires
        v.wf(),
    ensures
        encodable::<Playlist>(v),
{
}

impl Record for PlaylistTrack {
    open spec fn label() -> Seq<char> {
        "PlaylistTrack"@
    }

    open spec fn schema() -> Seq<Kind> {
        seq![
            Kind::Address,
            Kind::Address,
            Kind::Address,
            Kind::I64,
            Kind::U64,
        ]
    }

    open spec fn values(v: PlaylistTrack) -> Seq<ValueView> {
        seq![
            ValueView::Address(v.playlist),
            ValueView::Address(v.track),
            ValueView::Address(v.added_by),
            ValueView::I64(v.added_at),
            ValueView::U64(v.position),
        ]
    }

    open spec fn max_size() -> nat {
        PlaylistTrack::MAX_SIZE as nat
    }

    proof fn lemma_values_injective(a: PlaylistTrack, b: PlaylistTrack) {
        assert(Self::values(a)[0] == Self::values(b)[0]);
        assert(Self::values(a)[1] == Self::values(b)[1]);
        assert(Self::values(a)[2] == Self::values(b)[2]);
        assert(Self::values(a)[3] == Self::values(b)[3]);
        assert(Self::values(a)[4] == Self::values(b)[4]);
    }

    proof fn lemma_max_size() {
        let s0 = Seq::<Kind>::empty();
        lemma_width_push(s0, Kind::Address);
        let s1 = s0.push(Kind::Address);
        lemma_width_push(s1, Kind::Address);
        let s2 = s1.push(Kind::Address);
        lemma_width_push(s2, Kind::Address);
        let s3 = s2.push(Kind::Address);
        lemma_width_push(s3, Kind::I64);
        let s4 = s3.push(Kind::I64);
        lemma_width_push(s4, Kind::U64);
        let s5 = s4.push(Kind::U64);
        assert(Self::schema() =~= s5);
    }

    fn name() -> &'static str {
        "PlaylistTrack"
    }

    fn fields() -> Vec<Kind> {
        let mut s: Vec<Kind> = Vec::new();
        s.push(Kind::Address);
        s.push(Kind::Address);
        s.push(Kind::Address);
        s.push(Kind::I64);
        s.push(Kind::U64);
        assert(s@ =~= Self::schema());
        s
    }

    fn to_values(&self) -> Vec<Value> {
        let mut vs: Vec<Value> = Vec::new();
        vs.push(Value::Address(self.playlist));
        vs.push(Value::Address(self.track));
        vs.push(Value::Address(self.added_by));
        vs.push(Value::I64(self.added_at));
        vs.push(Value::U64(self.position));
        assert(views(vs@) =~= Self::values(self@));
        vs
    }

    fn from_values(vs: Vec<Value>) -> PlaylistTrack {
        proof {
            assert(fits(Self::schema()[0], views(vs@)[0]));
            assert(fits(Self::schema()[1], views(vs@)[1]));
            assert(fits(Self::schema()[2], views(vs@)[2]));
            assert(fits(Self::schema()[3], views(vs@)[3]));
            assert(fits(Self::schema()[4], views(vs@)[4]));
        }
        let r = PlaylistTrack {
            playlist: address_field(&vs, 0),
            track: address_field(&vs, 1),
            added_by: address_field(&vs, 2),
            added_at: i64_field(&vs, 3),
            position: u64_field(&vs, 4),
        };
        assert(Self::values(r@) =~= views(vs@));
        r
    }
}

/// No field of a playlist membership has a bound to exceed.
pub proof fn law_playlist_track_is_encodable(v: PlaylistTrack)
    ensures
        encodable::<PlaylistTrack>(v),
{
}

impl Record for PlaylistCollaborator {
    open spec fn label() -> Seq<char> {
        "PlaylistCollaborator"@
    }

    open spec fn schema() -> Seq<Kind> {
        seq![
            Kind::Address,
            Kind::Address,
            Kind::U8,
            Kind::I64,
        ]
    }

    open spec fn values(v: PlaylistCollaborator) -> Seq<ValueView> {
        seq![
            ValueView::Address(v.playlist),
            ValueView::Address(v.user),
            ValueView::U8(v.permissions),
            ValueView::I64(v.added_at),
        ]
    }

    open spec fn max_size() -> nat {
        PlaylistCollaborator::MAX_SIZE as nat
    }

    proof fn lemma_values_injective(a: PlaylistCollaborator, b: PlaylistCollaborator) {
        assert(Self::values(a)[0] == Self::values(b)[0]);
        assert(Self::values(a)[1] == Self::values(b)[1]);
        assert(Self::values(a)[2] == Self::values(b)[2]);
        assert(Self::values(a)[3] == Self::values(b)[3]);
    }

    proof fn lemma_max_size() {
        let s0 = Seq::<Kind>::empty();
        lemma_width_push(s0, Kind::Address);
        let s1 = s0.push(Kind::Address);
        lemma_width_push(s1, Kind::Address);
        let s2 = s1.push(Kind::Address);
        lemma_width_push(s2, Kind::U8);
        let s3 = s2.push(Kind::U8);
        lemma_width_push(s3, Kind::I64);
        let s4 = s3.push(Kind::I64);
        assert(Self::schema() =~= s4);
    }

    fn name() -> &'static str {
        "PlaylistCollaborator"
    }

    fn fields() -> Vec<Kind> {
        let mut s: Vec<Kind> = Vec::new();
        s.push(Kind::Address);
        s.push(Kind::Address);
        s.push(Kind::U8);
        s.push(Kind::I64);
        assert(s@ =~= Self::schema());
        s
    }

    fn to_values(&self) -> Vec<Value> {
        let mut vs: Vec<Value> = Vec::new();
        vs.push(Value::Address(self.playlist));
        vs.push(Value::Address(self.user));
        vs.push(Value::U8(self.permissions));
        vs.push(Value::I64(self.added_at));
        assert(views(vs@) =~= Self::values(self@));
        vs
    }

    fn from_values(vs: Vec<Value>) -> PlaylistCollaborator {
        proof {
            assert(fits(Self::schema()[0], views(vs@)[0]));
            assert(fits(Self::schema()[1], views(vs@)[1]));
            assert(fits(Self::schema()[2], views(vs@)[2]));
            assert(fits(Self::schema()[3], views(vs@)[3]));
        }
        let r = PlaylistCollaborator {
            playlist: address_field(&vs, 0),
            user: address_field(&vs, 1),
            permissions: u8_field(&vs, 2),
            added_at: i64_field(&vs, 3),
        };
        assert(Self::values(r@) =~= views(vs@));
        r
    }
}

/// No field of a collaborator edge has a bound to exceed.
pub proof fn law_playlist_collaborator_is_encodable(v: PlaylistCollaborator)
    ensures
        encodable::<PlaylistCollaborator>(v),
{
}

impl Record for TrackLike {
    open spec fn label() -> Seq<char> {
        "TrackLike"@
    }

    open spec fn schema() -> Seq<Kind> {
        seq![
            Kind::Address,
            Kind::Address,
            Kind::I64,
        ]
    }

    open spec fn values(v: TrackLike) -> Seq<ValueView> {
        seq![
            ValueView::Address(v.user),
            ValueView::Address(v.track),
            ValueView::I64(v.created_at),
        ]
    }

    open spec fn max_size() -> nat {
        TrackLike::MAX_SIZE as nat
    }

    proof fn lemma_values_injective(a: TrackLike, b: TrackLike) {
        assert(Self::values(a)[0] == Self::values(b)[0]);
        assert(Self::values(a)[1] == Self::values(b)[1]);
        assert(Self::values(a)[2] == Self::values(b)[2]);
    }

    proof fn lemma_max_size() {
        let s0 = Seq::<Kind>::empty();
        lemma_width_push(s0, Kind::Address);
        let s1 = s0.push(Kind::Address);
        lemma_width_push(s1, Kind::Address);
        let s2 = s1.push(Kind::Address);
        lemma_width_push(s2, Kind::I64);
        let s3 = s2.push(Kind::I64);
        assert(Self::schema() =~= s3);
    }

    fn name() -> &'static str {
        "TrackLike"
    }

    fn fields() -> Vec<Kind> {
        let mut s: Vec<Kind> = Vec::new();
        s.push(Kind::Address);
        s.push(Kind::Address);
        s.push(Kind::I64);
        assert(s@ =~= Self::schema());
        s
    }

    fn to_values(&self) -> Vec<Value> {
        let mut vs: Vec<Value> = Vec::new();
        vs.push(Value::Address(self.user));
        vs.push(Value::Address(self.track));
        vs.push(Value::I64(self.created_at));
        assert(views(vs@) =~= Self::values(self@));
        vs
    }

    fn from_values(vs: Vec<Value>) -> TrackLike {
        proof {
            assert(fits(Self::schema()[0], views(vs@)[0]));
            assert(fits(Self::schema()[1], views(vs@)[1]));
            assert(fits(Self::schema()[2], views(vs@)[2]));
        }
        let r = TrackLike {
            user: address_field(&vs, 0),
            track: address_field(&vs, 1),
            created_at: i64_field(&vs, 2),
        };
        assert(Self::values(r@) =~= views(vs@));
        r
    }
}

/// No field of a track like has a bound to exceed.
pub proof fn law_track_like_is_encodable(v: TrackLike)
    ensures
        encodable::<TrackLike>(v),
{
}

impl Record for PlaylistLike {
    open spec fn label() -> Seq<char> {
        "PlaylistLike"@
    }

    open spec fn schema() -> Seq<Kind> {
        seq![
            Kind::Address,
            Kind::Address,
            Kind::I64,
        ]
    }

    open spec fn values(v: PlaylistLike) -> Seq<ValueView> {
        seq![
            ValueView::Address(v.user),
            ValueView::Address(v.playlist),
            ValueView::I64(v.created_at),
        ]
    }

    open spec fn max_size() -> nat {
        PlaylistLike::MAX_SIZE as nat
    }

    proof fn lemma_values_injective(a: PlaylistLike, b: PlaylistLike) {
        assert(Self::values(a)[0] == Self::values(b)[0]);
        assert(Self::values(a)[1] == Self::values(b)[1]);
        assert(Self::values(a)[2] == Self::values(b)[2]);
    }

    proof fn lemma_max_size() {
        let s0 = Seq::<Kind>::empty();
        lemma_width_push(s0, Kind::Address);
        let s1 = s0.push(Kind::Address);
        lemma_width_push(s1, Kind::Address);
        let s2 = s1.push(Kind::Address);
        lemma_width_push(s2, Kind::I64);
        let s3 = s2.push(Kind::I64);
        assert(Self::schema() =~= s3);
    }

    fn name() -> &'static str {
        "PlaylistLike"
    }

    fn fields() -> Vec<Kind> {
        let mut s: Vec<Kind> = Vec::new();
        s.push(Kind::Address);
        s.push(Kind::Address);
        s.push(Kind::I64);
        assert(s@ =~= Self::schema());
        s
    }

    fn to_values(&self) -> Vec<Value> {
        let mut vs: Vec<Value> = Vec::new();
        vs.push(Value::Address(self.user));
        vs.push(Value::Address(self.playlist));
        vs.push(Value::I64(self.created_at));
        assert(views(vs@) =~= Self::values(self@));
        vs
    }

    fn from_values(vs: Vec<Value>) -> PlaylistLike {
        proof {
            assert(fits(Self::schema()[0], views(vs@)[0]));
            assert(fits(Self::schema()[1], views(vs@)[1]));
            assert(fits(Self::schema()[2], views(vs@)[2]));
        }
        let r = PlaylistLike {
            user: address_field(&vs, 0),
            playlist: address_field(&vs, 1),
            created_at: i64_field(&vs, 2),
        };
        assert(Self::values(r@) =~= views(vs@));
        r
    }
}

/// No field of a playlist like has a bound to exceed.
pub proof fn law_playlist_like_is_encodable(v: PlaylistLike)
    ensures
        encodable::<PlaylistLike>(v),
{
}

impl Record for UserFollow {
    open spec fn label() -> Seq<char> {
        "UserFollow"@
    }

    open spec fn schema() -> Seq<Kind> {
        seq![
            Kind::Address,
            Kind::Address,
            Kind::I64,
        ]
    }

    open spec fn values(v: UserFollow) -> Seq<ValueView> {
        seq![
            ValueView::Address(v.follower),
            ValueView::Address(v.following),
            ValueView::I64(v.created_at),
        ]
    }

    open spec fn max_size() -> nat {
        UserFollow::MAX_SIZE as nat
    }

    proof fn lemma_values_injective(a: UserFollow, b: UserFollow) {
        assert(Self::values(a)[0] == Self::values(b)[0]);
        assert(Self::values(a)[1] == Self::values(b)[1]);
        assert(Self::values(a)[2] == Self::values(b)[2]);
    }

    proof fn lemma_max_size() {
        let s0 = Seq::<Kind>::empty();
        lemma_width_push(s0, Kind::Address);
        let s1 = s0.push(Kind::Address);
        lemma_width_push(s1, Kind::Address);
        let s2 = s1.push(Kind::Address);
        lemma_width_push(s2, Kind::I64);
        let s3 = s2.push(Kind::I64);
        assert(Self::schema() =~= s3);
    }

    fn name() -> &'static str {
        "UserFollow"
    }

    fn fields() -> Vec<Kind> {
        let mut s: Vec<Kind> = Vec::new();
        s.push(Kind::Address);
        s.push(Kind::Address);
        s.push(Kind::I64);
        assert(s@ =~= Self::schema());
        s
    }

    fn to_values(&self) -> Vec<Value> {
        let mut vs: Vec<Value> = Vec::new();
        vs.push(Value::Address(self.follower));
        vs.push(Value::Address(self.following));
        vs.push(Value::I64(self.created_at));
        assert(views(vs@) =~= Self::values(self@));
        vs
    }

    fn from_values(vs: Vec<Value>) -> UserFollow {
        proof {
            assert(fits(Self::schema()[0], views(vs@)[0]));
            assert(fits(Self::schema()[1], views(vs@)[1]));
            assert(fits(Self::schema()[2], views(vs@)[2]));
        }
        let r = UserFollow {
            follower: address_field(&vs, 0),
            following: address_field(&vs, 1),
            created_at: i64_field(&vs, 2),
        };
        assert(Self::values(r@) =~= views(vs@));
        r
    }
}

/// No field of a follow has a bound to exceed.
pub proof fn law_user_follow_is_encodable(v: UserFollow)
    ensures
        encodable::<UserFollow>(v),
{
}

impl Record for ActivityFeed {
    open spec fn label() -> Seq<char> {
        "ActivityFeed"@
    }

    open spec fn schema() -> Seq<Kind> {
        seq![
            Kind::Address,
            Kind::U8,
            Kind::Address,
            Kind::Text { max: 64 },
            Kind::I64,
        ]
    }

    open spec fn values(v: ActivityFeedView) -> Seq<ValueView> {
        seq![
            ValueView::Address(v.user),
            ValueView::U8(v.activity_type),
            ValueView::Address(v.target),
            ValueView::Text(v.metadata),
            ValueView::I64(v.created_at),
        ]
    }

    open spec fn max_size() -> nat {
        ActivityFeed::MAX_SIZE as nat
    }

    proof fn lemma_values_injective(a: ActivityFeedView, b: ActivityFeedView) {
        assert(Self::values(a)[0] == Self::values(b)[0]);
        assert(Self::values(a)[1] == Self::values(b)[1]);
        assert(Self::values(a)[2] == Self::values(b)[2]);
        assert(Self::values(a)[3] == Self::values(b)[3]);
        assert(Self::values(a)[4] == Self::values(b)[4]);
    }

    proof fn lemma_max_size() {
        let s0 = Seq::<Kind>::empty();
        lemma_width_push(s0, Kind::Address);
        let s1 = s0.push(Kind::Address);
        lemma_width_push(s1, Kind::U8);
        let s2 = s1.push(Kind::U8);
        lemma_width_push(s2, Kind::Address);
        let s3 = s2.push(Kind::Address);
        lemma_width_push(s3, Kind::Text { max: 64 });
        let s4 = s3.push(Kind::Text { max: 64 });
        lemma_width_push(s4, Kind::I64);
        let s5 = s4.push(Kind::I64);
        assert(Self::schema() =~= s5);
    }

    fn name() -> &'static str {
        "ActivityFeed"
    }

    fn fields() -> Vec<Kind> {
        let mut s: Vec<Kind> = Vec::new();
        s.push(Kind::Address);
        s.push(Kind::U8);
        s.push(Kind::Address);
        s.push(Kind::Text { max: 64 });
        s.push(Kind::I64);
        assert(s@ =~= Self::schema());
        s
    }

    fn to_values(&self) -> Vec<Value> {
        let mut vs: Vec<Value> = Vec::new();
        vs.push(Value::Address(self.user));
        vs.push(Value::U8(self.activity_type));
        vs.push(Value::Address(self.target));
        vs.push(Value::Text(self.metadata.clone()));
        vs.push(Value::I64(self.created_at));
        assert(views(vs@) =~= Self::values(self@));
        vs
    }

    fn from_values(vs: Vec<Value>) -> ActivityFeed {
        proof {
            assert(fits(Self::schema()[0], views(vs@)[0]));
            assert(fits(Self::schema()[1], views(vs@)[1]));
            assert(fits(Self::schema()[2], views(vs@)[2]));
            assert(fits(Self::schema()[3], views(vs@)[3]));
            assert(fits(Self::schema()[4], views(vs@)[4]));
        }
        let r = ActivityFeed {
            user: address_field(&vs, 0),
            activity_type: u8_field(&vs, 1),
            target: address_field(&vs, 2),
            metadata: text_field(&vs, 3),
            created_at: i64_field(&vs, 4),
        };
        assert(Self::values(r@) =~= views(vs@));
        r
    }
}

/// Where an activity entry keeps the bounds of its type, every text is within its field.
pub proof fn law_activity_feed_is_encodable(v: ActivityFeedView)
    requires
        v.wf(),
    ensures
        encodable::<ActivityFeed>(v),
{
}

impl Record for SearchIndex {
    open spec fn label() -> Seq<char> {
        "SearchIndex"@
    }

    open spec fn schema() -> Seq<Kind> {
        seq![
            Kind::Text { max: 64 },
            Kind::U8,
            Kind::Address,
            Kind::I64,
        ]
    }

    open spec fn values(v: SearchIndexView) -> Seq<ValueView> {
        seq![
            ValueView::Text(v.search_term),
            ValueView::U8(v.target_type),
            ValueView::Address(v.target_pubkey),
            ValueView::I64(v.created_at),
        ]
    }

    open spec fn max_size() -> nat {
        SearchIndex::MAX_SIZE as nat
    }

    proof fn lemma_values_injective(a: SearchIndexView, b: SearchIndexView) {
        assert(Self::values(a)[0] == Self::values(b)[0]);
        assert(Self::values(a)[1] == Self::values(b)[1]);
        assert(Self::values(a)[2] == Self::values(b)[2]);
        assert(Self::values(a)[3] == Self::values(b)[3]);
    }

    proof fn lemma_max_size() {
        let s0 = Seq::<Kind>::empty();
        lemma_width_push(s0, Kind::Text { max: 64 });
        let s1 = s0.push(Kind::Text { max: 64 });
        lemma_width_push(s1, Kind::U8);
        let s2 = s1.push(Kind::U8);
        lemma_width_push(s2, Kind::Address);
        let s3 = s2.push(Kind::Address);
        lemma_width_push(s3, Kind::I64);
        let s4 = s3.push(Kind::I64);
        assert(Self::schema() =~= s4);
    }

    fn name() -> &'static str {
        "SearchIndex"
    }

    fn fields() -> Vec<Kind> {
        let mut s: Vec<Kind> = Vec::new();
        s.push(Kind::Text { max: 64 });
        s.push(Kind::U8);
        s.push(Kind::Address);
        s.push(Kind::I64);
        assert(s@ =~= Self::schema());
        s
    }

    fn to_values(&self) -> Vec<Value> {
        let mut vs: Vec<Value> = Vec::new();
        vs.push(Value::Text(self.search_term.clone()));
        vs.push(Value::U8(self.target_type));
        vs.push(Value::Address(self.target_pubkey));
        vs.push(Value::I64(self.created_at));
        assert(views(vs@) =~= Self::values(self@));
        vs
    }

    fn from_values(vs: Vec<Value>) -> SearchIndex {
        proof {
            assert(fits(Self::schema()[0], views(vs@)[0]));
            assert(fits(Self::schema()[1], views(vs@)[1]));
            assert(fits(Self::schema()[2], views(vs@)[2]));
            assert(fits(Self::schema()[3], views(vs@)[3]));
        }
        let r = SearchIndex {
            search_term: text_field(&vs, 0),
            target_type: u8_field(&vs, 1),
            target_pubkey: address_field(&vs, 2),
            created_at: i64_field(&vs, 3),
        };
        assert(Self::values(r@) =~= views(vs@));
        r
    }
}

/// Where a search entry keeps the bounds of its type, every text is within its field.
pub proof fn law_search_index_is_encodable(v: SearchIndexView)
    requires
        v.wf(),
    ensures
        encodable::<SearchIndex>(v),
{
}

impl Record for UserInsights {
    open spec fn label() -> Seq<char> {
        "UserInsights"@
    }

    open spec fn schema() -> Seq<Kind> {
        seq![
            Kind::Address,
            Kind::U64,
            Kind::Text { max: 32 },
            Kind::OptionalAddress,
            Kind::U32,
            Kind::U32,
            Kind::I64,
        ]
    }

    open spec fn values(v: UserInsightsView) -> Seq<ValueView> {
        seq![
            ValueView::Address(v.user),
            ValueView::U64(v.total_listening_time),
            ValueView::Text(v.favorite_genre),
            ValueView::OptionalAddress(v.most_played_track),
            ValueView::U32(v.discovery_score),
            ValueView::U32(v.social_engagement),
            ValueView::I64(v.generated_at),
        ]
    }

    open spec fn max_size() -> nat {
        UserInsights::MAX_SIZE as nat
    }

    proof fn lemma_values_injective(a: UserInsightsView, b: UserInsightsView) {
        assert(Self::values(a)[0] == Self::values(b)[0]);
        assert(Self::values(a)[1] == Self::values(b)[1]);
        assert(Self::values(a)[2] == Self::values(b)[2]);
        assert(Self::values(a)[3] == Self::values(b)[3]);
        assert(Self::values(a)[4] == Self::values(b)[4]);
        assert(Self::values(a)[5] == Self::values(b)[5]);
        assert(Self::values(a)[6] == Self::values(b)[6]);
    }

    proof fn lemma_max_size() {
        let s0 = Seq::<Kind>::empty();
        lemma_width_push(s0, Kind::Address);
        let s1 = s0.push(Kind::Address);
        lemma_width_push(s1, Kind::U64);
        let s2 = s1.push(Kind::U64);
        lemma_width_push(s2, Kind::Text { max: 32 });
        let s3 = s2.push(Kind::Text { max: 32 });
        lemma_width_push(s3, Kind::OptionalAddress);
        let s4 = s3.push(Kind::OptionalAddress);
        lemma_width_push(s4, Kind::U32);
        let s5 = s4.push(Kind::U32);
        lemma_width_push(s5, Kind::U32);
        let s6 = s5.push(Kind::U32);
        lemma_width_push(s6, Kind::I64);
        let s7 = s6.push(Kind::I64);
        assert(Self::schema() =~= s7);
    }

    fn name() -> &'static str {
        "UserInsights"
    }

    fn fields() -> Vec<Kind> {
        let mut s: Vec<Kind> = Vec::new();
        s.push(Kind::Address);
        s.push(Kind::U64);
        s.push(Kind::Text { max: 32 });
        s.push(Kind::OptionalAddress);
        s.push(Kind::U32);
        s.push(Kind::U32);
        s.push(Kind::I64);
        assert(s@ =~= Self::schema());
        s
    }

    fn to_values(&self) -> Vec<Value> {
        let mut vs: Vec<Value> = Vec::new();
        vs.push(Value::Address(self.user));
        vs.push(Value::U64(self.total_listening_time));
        vs.push(Value::Text(self.favorite_genre.clone()));
        vs.push(Value::OptionalAddress(self.most_played_track));
        vs.push(Value::U32(self.discovery_score));
        vs.push(Value::U32(self.social_engagement));
        vs.push(Value::I64(self.generated_at));
        assert(views(vs@) =~= Self::values(self@));
        vs
    }

    fn from_values(vs: Vec<Value>) -> UserInsights {
        proof {
            assert(fits(Self::schema()[0], views(vs@)[0]));
            assert(fits(Self::schema()[1], views(vs@)[1]));
            assert(fits(Self::schema()[2], views(vs@)[2]));
            assert(fits(Self::schema()[3], views(vs@)[3]));
            assert(fits(Self::schema()[4], views(vs@)[4]));
            assert(fits(Self::schema()[5], views(vs@)[5]));
            assert(fits(Self::schema()[6], views(vs@)[6]));
        }
        let r = UserInsights {
            user: address_field(&vs, 0),
            total_listening_time: u64_field(&vs, 1),
            favorite_genre: text_field(&vs, 2),
            most_played_track: optional_address_field(&vs, 3),
            discovery_score: u32_field(&vs, 4),
            social_engagement: u32_field(&vs, 5),
            generated_at: i64_field(&vs, 6),
        };
        assert(Self::values(r@) =~= views(vs@));
        r
    }
}

/// Where insights keep the bounds of their type, every text is within its field.
pub proof fn law_user_insights_is_encodable(v: UserInsightsView)
    requires
        v.wf(),
    ensures
        encodable::<UserInsights>(v),
{
}

impl Record for Recommendation {
    open spec fn label() -> Seq<char> {
        "Recommendation"@
    }

    open spec fn schema() -> Seq<Kind> {
        seq![
            Kind::Address,
            Kind::U8,
            Kind::Address,
            Kind::U32,
            Kind::Text { max: 128 },
            Kind::I64,
            Kind::Bool,
        ]
    }

    open spec fn values(v: RecommendationView) -> Seq<ValueView> {
        seq![
            ValueView::Address(v.user),
            ValueView::U8(v.recommendation_type),
            ValueView::Address(v.target),
            ValueView::U32(v.score),
            ValueView::Text(v.reason),
            ValueView::I64(v.created_at),
            ValueView::Bool(v.is_viewed),
        ]
    }

    open spec fn max_size() -> nat {
        Recommendation::MAX_SIZE as nat
    }

    proof fn lemma_values_injective(a: RecommendationView, b: RecommendationView) {
        assert(Self::values(a)[0] == Self::values(b)[0]);
        assert(Self::values(a)[1] == Self::values(b)[1]);
        assert(Self::values(a)[2] == Self::values(b)[2]);
        assert(Self::values(a)[3] == Self::values(b)[3]);
        assert(Self::values(a)[4] == Self::values(b)[4]);
        assert(Self::values(a)[5] == Self::values(b)[5]);
        assert(Self::values(a)[6] == Self::values(b)[6]);
    }

    proof fn lemma_max_size() {
        let s0 = Seq::<Kind>::empty();
        lemma_width_push(s0, Kind::Address);
        let s1 = s0.push(Kind::Address);
        lemma_width_push(s1, Kind::U8);
        let s2 = s1.push(Kind::U8);
        lemma_width_push(s2, Kind::Address);
        let s3 = s2.push(Kind::Address);
        lemma_width_push(s3, Kind::U32);
        let s4 = s3.push(Kind::U32);
        lemma_width_push(s4, Kind::Text { max: 128 });
        let s5 = s4.push(Kind::Text { max: 128 });
        lemma_width_push(s5, Kind::I64);
        let s6 = s5.push(Kind::I64);
        lemma_width_push(s6, Kind::Bool);
        let s7 = s6.push(Kind::Bool);
        assert(Self::schema() =~= s7);
    }

    fn name() -> &'static str {
        "Recommendation"
    }

    fn fields() -> Vec<Kind> {
        let mut s: Vec<Kind> = Vec::new();
        s.push(Kind::Address);
        s.push(Kind::U8);
        s.push(Kind::Address);
        s.push(Kind::U32);
        s.push(Kind::Text { max: 128 });
        s.push(Kind::I64);
        s.push(Kind::Bool);
        assert(s@ =~= Self::schema());
        s
    }

    fn to_values(&self) -> Vec<Value> {
        let mut vs: Vec<Value> = Vec::new();
        vs.push(Value::Address(self.user));
        vs.push(Value::U8(self.recommendation_type));
        vs.push(Value::Address(self.target));
        vs.push(Value::U32(self.score));
        vs.push(Value::Text(self.reason.clone()));
        vs.push(Value::I64(self.created_at));
        vs.push(Value::Bool(self.is_viewed));
        assert(views(vs@) =~= Self::values(self@));
        vs
    }

    fn from_values(vs: Vec<Value>) -> Recommendation {
        proof {
            assert(fits(Self::schema()[0], views(vs@)[0]));
            assert(fits(Self::schema()[1], views(vs@)[1]));
            assert(fits(Self::schema()[2], views(vs@)[2]));
            assert(fits(Self::schema()[3], views(vs@)[3]));
            assert(fits(Self::schema()[4], views(vs@)[4]));
            assert(fits(Self::schema()[5], views(vs@)[5]));
            assert(fits(Self::schema()[6], views(vs@)[6]));
        }
        let r = Recommendation {
            user: address_field(&vs, 0),
            recommendation_type: u8_field(&vs, 1),
            target: address_field(&vs, 2),
            score: u32_field(&vs, 3),
            reason: text_field(&vs, 4),
            created_at: i64_field(&vs, 5),
            is_viewed: bool_field(&vs, 6),
        };
        assert(Self::values(r@) =~= views(vs@));
        r
    }
}

/// Where a recommendation keeps the bounds of its type, every text is within its field.
pub proof fn law_recommendation_is_encodable(v: RecommendationView)
    requires
        v.wf(),
    ensures
        encodable::<Recommendation>(v),
{
}

} // verus!
