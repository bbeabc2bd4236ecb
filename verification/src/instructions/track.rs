//! Creating tracks and recording plays.

use crate::address::{lemma_address_of_bytes, Address};
use crate::counter::{
    checked_paired_step, checked_raise, checked_step, paired, raised, stepped, Delta,
};
use crate::errors::{LedgerError, SpotifyError};
use crate::ledger::{commits, Ledger, LedgerState};
use crate::namespace::{address_of, find_address, key1, key2, key3, Namespace};
use crate::state::track::{
    MAX_ALBUM_LEN, MAX_ARTIST_LEN, MAX_GENRE_LEN, MAX_TITLE_LEN, MAX_URL_LEN,
};
use crate::state::{Track, TrackPlay, TrackView, UserStats};
use crate::text::{byte_len, require_at_most, require_not_empty, text_bytes};
use vstd::prelude::*;

verus! {

/// The records that creating a track touches.
#[derive(Clone, Copy, Debug, PartialEq, Eq)]
pub struct CreateTrack {
    /// Where the new track will live.
    pub track: Address,
    /// The creator's statistics.
    pub user_stats: Address,
    /// The creator.
    pub authority: Address,
}

impl CreateTrack {
    /// The addresses are those of `authority`'s track with this title and
    /// artist, and of `authority`'s statistics.
    pub open spec fn resolves(
        self,
        program_id: Seq<u8>,
        authority: Seq<u8>,
        title: Seq<char>,
        artist: Seq<char>,
    ) -> bool {
        &&& self.authority@ == authority
        &&& address_of(
            program_id,
            Namespace::Track,
            seq![authority, vstd::utf8::encode_utf8(title), vstd::utf8::encode_utf8(artist)],
        ) == Some(self.track@)
        &&& address_of(program_id, Namespace::UserStats, seq![authority]) == Some(
            self.user_stats@,
        )
    }

    /// The records for this key, where every one of them has an address.
    pub open spec fn resolution(
        program_id: Seq<u8>,
        authority: Seq<u8>,
        title: Seq<char>,
        artist: Seq<char>,
    ) -> Option<CreateTrack> {
        if exists|ctx: CreateTrack| ctx.resolves(program_id, authority, title, artist) {
            Some(choose|ctx: CreateTrack| ctx.resolves(program_id, authority, title, artist))
        } else {
            None
        }
    }

    /// A key has one resolution.
    pub proof fn lemma_resolution(
        self,
        program_id: Seq<u8>,
        authority: Seq<u8>,
        title: Seq<char>,
        artist: Seq<char>,
    )
        requires
            self.resolves(program_id, authority, title, artist),
        ensures
            Self::resolution(program_id, authority, title, artist) == Some(self),
    {
        let other = choose|ctx: CreateTrack| ctx.resolves(program_id, authority, title, artist);
        lemma_address_of_bytes(other.track, self.track);
        lemma_address_of_bytes(other.user_stats, self.user_stats);
        lemma_address_of_bytes(other.authority, self.authority);
    }

    /// Derives the addresses. A track is keyed by its creator, title and
    /// artist, so two creators may each hold a track of the same name.
    pub fn resolve(program_id: &Address, authority: &Address, title: &String, artist: &String) -> (r:
        Option<CreateTrack>)
        ensures
            r == Self::resolution(program_id@, authority@, title@, artist@),
            match r {
                Some(ctx) => ctx.resolves(program_id@, authority@, title@, artist@),
                None => address_of(
                    program_id@,
                    Namespace::Track,
                    seq![
                        authority@,
                        vstd::utf8::encode_utf8(title@),
                        vstd::utf8::encode_utf8(artist@),
                    ],
                ) is None || address_of(program_id@, Namespace::UserStats, seq![authority@])
                    is None,
            },
            byte_len(title@) > 32 || byte_len(artist@) > 32 ==> r is None,
    {
        let key = key3(
            authority.to_seed(),
            text_bytes(title.as_str()),
            text_bytes(artist.as_str()),
        );
        let track = find_address(program_id, Namespace::Track, key)?;
        let user_stats = find_address(program_id, Namespace::UserStats, key1(authority.to_seed()))?;
        let ctx = CreateTrack { track, user_stats, authority: *authority };
        proof {
            ctx.lemma_resolution(program_id@, authority@, title@, artist@);
        }
        Some(ctx)
    }
}

/// The first rule that the fields of a new track break, if any.
pub open spec fn track_rejection(
    title: Seq<char>,
    artist: Seq<char>,
    album: Seq<char>,
    genre: Seq<char>,
    duration: u64,
    audio_url: Seq<char>,
    cover_image: Seq<char>,
) -> Option<SpotifyError> {
    if byte_len(title) > MAX_TITLE_LEN {
        Some(SpotifyError::TrackTitleTooLong)
    } else if byte_len(title) == 0 {
        Some(SpotifyError::TrackTitleEmpty)
    } else if byte_len(artist) > MAX_ARTIST_LEN {
        Some(SpotifyError::ArtistNameTooLong)
    } else if byte_len(album) > MAX_ALBUM_LEN {
        Some(SpotifyError::AlbumNameTooLong)
    } else if byte_len(genre) > MAX_GENRE_LEN {
        Some(SpotifyError::GenreTooLong)
    } else if byte_len(audio_url) > MAX_URL_LEN {
        Some(SpotifyError::AudioUrlTooLong)
    } else if byte_len(cover_image) > MAX_URL_LEN {
        Some(SpotifyError::CoverImageUrlTooLong)
    } else if duration == 0 {
        Some(SpotifyError::InvalidDuration)
    } else {
        None
    }
}

/// Checks the fields of a new track, in the order of [`track_rejection`].
pub fn validate_track(
    title: &String,
    artist: &String,
    album: &String,
    genre: &String,
    duration: u64,
    audio_url: &String,
    cover_image: &String,
) -> (r: Result<(), SpotifyError>)
    ensures
        r == match track_rejection(
            title@,
            artist@,
            album@,
            genre@,
            duration,
            audio_url@,
            cover_image@,
        ) {
            Some(e) => Err::<(), SpotifyError>(e),
            None => Ok(()),
        },
{
    require_at_most(title, MAX_TITLE_LEN, SpotifyError::TrackTitleTooLong)?;
    require_not_empty(title, SpotifyError::TrackTitleEmpty)?;
    require_at_most(artist, MAX_ARTIST_LEN, SpotifyError::ArtistNameTooLong)?;
    require_at_most(album, MAX_ALBUM_LEN, SpotifyError::AlbumNameTooLong)?;
    require_at_most(genre, MAX_GENRE_LEN, SpotifyError::GenreTooLong)?;
    require_at_most(audio_url, MAX_URL_LEN, SpotifyError::AudioUrlTooLong)?;
    require_at_most(cover_image, MAX_URL_LEN, SpotifyError::CoverImageUrlTooLong)?;
    if duration == 0 {
        return Err(SpotifyError::InvalidDuration);
    }
    Ok(())
}

/// What creating a track makes of the ledger.
///
/// The fields are checked first. Then the track's address must be free and
/// the creator's statistics must exist. The track starts with no likes and
/// no plays; the creator's `tracks_created` rises by one.
pub open spec fn create_track_step(
    s: LedgerState,
    ctx: CreateTrack,
    title: Seq<char>,
    artist: Seq<char>,
    album: Seq<char>,
    genre: Seq<char>,
    duration: u64,
    audio_url: Seq<char>,
    cover_image: Seq<char>,
    now: i64,
) -> Result<LedgerState, LedgerError> {
    match track_rejection(title, artist, album, genre, duration, audio_url, cover_image) {
        Some(e) => Err(LedgerError::Program(e)),
        None => if s.tracks.contains_key(ctx.track@) {
            Err(LedgerError::AlreadyExists)
        } else if !s.stats.contains_key(ctx.user_stats@) {
            Err(LedgerError::NotFound)
        } else {
            let stats = s.stats[ctx.user_stats@];
            match stepped(stats.tracks_created, Delta::Increment) {
                Err(e) => Err(LedgerError::Program(e)),
                Ok(created) => Ok(
                    LedgerState {
                        tracks: s.tracks.insert(
                            ctx.track@,
                            TrackView {
                                title,
                                artist,
                                album,
                                genre,
                                duration,
                                audio_url,
                                cover_image,
                                likes_count: 0,
                                plays_count: 0,
                                created_by: ctx.authority,
                                created_at: now,
                            },
                        ),
                        stats: s.stats.insert(
                            ctx.user_stats@,
                            UserStats { tracks_created: created, last_active: now, ..stats },
                        ),
                        ..s
                    },
                ),
            }
        },
    }
}

/// Creates a track at `ctx.track` for `ctx.authority`.
pub fn create_track(
    ledger: &mut Ledger,
    ctx: &CreateTrack,
    title: String,
    artist: String,
    album: String,
    genre: String,
    duration: u64,
    audio_url: String,
    cover_image: String,
    now: i64,
) -> (r: Result<(), LedgerError>)
    requires
        old(ledger).wf(),
    ensures
        final(ledger).wf(),
        commits(
            old(ledger)@,
            create_track_step(
                old(ledger)@,
                *ctx,
                title@,
                artist@,
                album@,
                genre@,
                duration,
                audio_url@,
                cover_image@,
                now,
            ),
            r,
            final(ledger)@,
        ),
        old(ledger)@.valid() ==> final(ledger)@.valid(),
{
    match validate_track(&title, &artist, &album, &genre, duration, &audio_url, &cover_image) {
        Err(e) => {
            return Err(LedgerError::Program(e));
        },
        Ok(()) => {},
    }
    if ledger.tracks.contains(&ctx.track) {
        return Err(LedgerError::AlreadyExists);
    }
    let stats = match ledger.stats.get(&ctx.user_stats) {
        Some(s) => *s,
        None => {
            return Err(LedgerError::NotFound);
        },
    };
    let created = match checked_step(stats.tracks_created, Delta::Increment) {
        Ok(n) => n,
        Err(e) => {
            return Err(LedgerError::Program(e));
        },
    };
    let track = Track {
        title,
        artist,
        album,
        genre,
        duration,
        audio_url,
        cover_image,
        likes_count: 0,
        plays_count: 0,
        created_by: ctx.authority,
        created_at: now,
    };
    ledger.tracks.put(ctx.track, track);
    ledger.stats.put(
        ctx.user_stats,
        UserStats { tracks_created: created, last_active: now, ..stats },
    );
    Ok(())
}

/// The records that playing a track touches.
#[derive(Clone, Copy, Debug, PartialEq, Eq)]
pub struct PlayTrack {
    /// The track played.
    pub track: Address,
    /// The aggregate of this listener's plays of this track.
    pub track_play: Address,
    /// The listener's statistics.
    pub user_stats: Address,
    /// The statistics of the track's creator.
    pub creator_stats: Address,
    /// The listener.
    pub user: Address,
}

impl PlayTrack {
    /// The addresses are those of the play aggregate of `user` on `track`,
    /// of `user`'s statistics and of `creator`'s statistics.
    pub open spec fn resolves(
        self,
        program_id: Seq<u8>,
        user: Seq<u8>,
        track: Seq<u8>,
        creator: Seq<u8>,
    ) -> bool {
        &&& self.user@ == user
        &&& self.track@ == track
        &&& address_of(program_id, Namespace::TrackPlay, seq![track, user]) == Some(
            self.track_play@,
        )
        &&& address_of(program_id, Namespace::UserStats, seq![user]) == Some(self.user_stats@)
        &&& address_of(program_id, Namespace::UserStats, seq![creator]) == Some(
            self.creator_stats@,
        )
    }

    /// The records for this key, where every one of them has an address.
    pub open spec fn resolution(
        program_id: Seq<u8>,
        user: Seq<u8>,
        track: Seq<u8>,
        creator: Seq<u8>,
    ) -> Option<PlayTrack> {
        if exists|ctx: PlayTrack| ctx.resolves(program_id, user, track, creator) {
            Some(choose|ctx: PlayTrack| ctx.resolves(program_id, user, track, creator))
        } else {
            None
        }
    }

    /// A key has one resolution.
    pub proof fn lemma_resolution(
        self,
        program_id: Seq<u8>,
        user: Seq<u8>,
        track: Seq<u8>,
        creator: Seq<u8>,
    )
        requires
            self.resolves(program_id, user, track, creator),
        ensures
            Self::resolution(program_id, user, track, creator) == Some(self),
    {
        let other = choose|ctx: PlayTrack| ctx.resolves(program_id, user, track, creator);
        lemma_address_of_bytes(other.track, self.track);
        lemma_address_of_bytes(other.track_play, self.track_play);
        lemma_address_of_bytes(other.user_stats, self.user_stats);
        lemma_address_of_bytes(other.creator_stats, self.creator_stats);
        lemma_address_of_bytes(other.user, self.user);
    }

    /// Derives the addresses.
    pub fn resolve(program_id: &Address, user: &Address, track: &Address, creator: &Address) -> (r:
        Option<PlayTrack>)
        ensures
            r == Self::resolution(program_id@, user@, track@, creator@),
            match r {
                Some(ctx) => ctx.resolves(program_id@, user@, track@, creator@),
                None => address_of(program_id@, Namespace::TrackPlay, seq![track@, user@]) is None
                    || address_of(program_id@, Namespace::UserStats, seq![user@]) is None
                    || address_of(program_id@, Namespace::UserStats, seq![creator@]) is None,
            },
    {
        let track_play = find_address(
            program_id,
            Namespace::TrackPlay,
            key2(track.to_seed(), user.to_seed()),
        )?;
        let user_stats = find_address(program_id, Namespace::UserStats, key1(user.to_seed()))?;
        let creator_stats = find_address(
            program_id,
            Namespace::UserStats,
            key1(creator.to_seed()),
        )?;
        let ctx = PlayTrack { track: *track, track_play, user_stats, creator_stats, user: *user };
        proof {
            ctx.lemma_resolution(program_id@, user@, track@, creator@);
        }
        Some(ctx)
    }
}

/// The play aggregate after one more play of `duration_played`: a first play
/// starts the aggregate at one, a later play adds to it.
pub open spec fn next_play(
    existing: Option<TrackPlay>,
    track: Address,
    user: Address,
    duration_played: u64,
    now: i64,
) -> Result<TrackPlay, SpotifyError> {
    match existing {
        None => Ok(
            TrackPlay {
                track,
                user,
                play_count: 1,
                total_duration: duration_played,
                first_played_at: now,
                last_played_at: now,
            },
        ),
        Some(play) => match stepped(play.play_count, Delta::Increment) {
            Err(e) => Err(e),
            Ok(count) => match raised(play.total_duration, duration_played) {
                Err(e) => Err(e),
                Ok(total) => Ok(
                    TrackPlay {
                        play_count: count,
                        total_duration: total,
                        last_played_at: now,
                        ..play
                    },
                ),
            },
        },
    }
}

/// Computes [`next_play`].
pub fn advance_play(
    existing: Option<&TrackPlay>,
    track: Address,
    user: Address,
    duration_played: u64,
    now: i64,
) -> (r: Result<TrackPlay, SpotifyError>)
    ensures
        r == next_play(
            match existing {
                Some(p) => Some(*p),
                None => None,
            },
            track,
            user,
            duration_played,
            now,
        ),
{
    match existing {
        None => Ok(
            TrackPlay {
                track,
                user,
                play_count: 1,
                total_duration: duration_played,
                first_played_at: now,
                last_played_at: now,
            },
        ),
        Some(play) => {
            let count = checked_step(play.play_count, Delta::Increment)?;
            let total = checked_raise(play.total_duration, duration_played)?;
            Ok(
                TrackPlay {
                    track: play.track,
                    user: play.user,
                    play_count: count,
                    total_duration: total,
                    first_played_at: play.first_played_at,
                    last_played_at: now,
                },
            )
        },
    }
}

/// What one play makes of the ledger.
///
/// The track and both statistics records must exist. The listener's
/// aggregate for the track advances by [`next_play`], the track's
/// `plays_count` and the creator's `total_plays` rise by one each, and the
/// listener's `last_active` becomes `now`. Where listener and creator are
/// one, both changes land on the one statistics record.
pub open spec fn play_track_step(
    s: LedgerState,
    ctx: PlayTrack,
    duration_played: u64,
    now: i64,
) -> Result<LedgerState, LedgerError> {
    if !s.tracks.contains_key(ctx.track@) || !s.stats.contains_key(ctx.user_stats@)
        || !s.stats.contains_key(ctx.creator_stats@) {
        Err(LedgerError::NotFound)
    } else {
        let track = s.tracks[ctx.track@];
        let existing = if s.track_plays.contains_key(ctx.track_play@) {
            Some(s.track_plays[ctx.track_play@])
        } else {
            None
        };
        let listened = s.stats.insert(
            ctx.user_stats@,
            UserStats { last_active: now, ..s.stats[ctx.user_stats@] },
        );
        let creator = listened[ctx.creator_stats@];
        match (
            next_play(existing, ctx.track, ctx.user, duration_played, now),
            paired(track.plays_count, creator.total_plays, Delta::Increment),
        ) {
            (Ok(play), Ok((plays, total))) => Ok(
                LedgerState {
                    track_plays: s.track_plays.insert(ctx.track_play@, play),
                    tracks: s.tracks.insert(ctx.track@, TrackView { plays_count: plays, ..track }),
                    stats: listened.insert(
                        ctx.creator_stats@,
                        UserStats { total_plays: total, ..creator },
                    ),
                    ..s
                },
            ),
            (Err(e), _) => Err(LedgerError::Program(e)),
            (_, Err(e)) => Err(LedgerError::Program(e)),
        }
    }
}

/// Records one play of `ctx.track` by `ctx.user`.
pub fn play_track(ledger: &mut Ledger, ctx: &PlayTrack, duration_played: u64, now: i64) -> (r:
    Result<(), LedgerError>)
    requires
        old(ledger).wf(),
    ensures
        final(ledger).wf(),
        commits(
            old(ledger)@,
            play_track_step(old(ledger)@, *ctx, duration_played, now),
            r,
            final(ledger)@,
        ),
        old(ledger)@.valid() ==> final(ledger)@.valid(),
{
    let plays_before = match ledger.tracks.get(&ctx.track) {
        Some(t) => t.plays_count,
        None => {
            return Err(LedgerError::NotFound);
        },
    };
    let listener = match ledger.stats.get(&ctx.user_stats) {
        Some(s) => *s,
        None => {
            return Err(LedgerError::NotFound);
        },
    };
    let creator_before = match ledger.stats.get(&ctx.creator_stats) {
        Some(s) => *s,
        None => {
            return Err(LedgerError::NotFound);
        },
    };
    let listener = UserStats { last_active: now, ..listener };
    let creator = if ctx.creator_stats.same(&ctx.user_stats) {
        listener
    } else {
        creator_before
    };
    let play = match advance_play(
        ledger.track_plays.get(&ctx.track_play),
        ctx.track,
        ctx.user,
        duration_played,
        now,
    ) {
        Ok(p) => p,
        Err(e) => {
            return Err(LedgerError::Program(e));
        },
    };
    let (plays, total) = match checked_paired_step(plays_before, creator.total_plays, Delta::Increment) {
        Ok(pair) => pair,
        Err(e) => {
            return Err(LedgerError::Program(e));
        },
    };
    ledger.track_plays.put(ctx.track_play, play);
    let mut track = ledger.tracks.take(&ctx.track).unwrap();
    track.plays_count = plays;
    ledger.tracks.put(ctx.track, track);
    ledger.stats.put(ctx.user_stats, listener);
    ledger.stats.put(ctx.creator_stats, UserStats { total_plays: total, ..creator });
    proof {
        let s = old(ledger)@;
        assert(ledger@.tracks =~= s.tracks.insert(
            ctx.track@,
            TrackView { plays_count: plays, ..s.tracks[ctx.track@] },
        ));
    }
    Ok(())
}

} // verus!
