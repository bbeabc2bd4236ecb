//! Creating and editing user profiles.

use crate::address::{lemma_address_of_bytes, Address};
use crate::errors::{LedgerError, SpotifyError};
use crate::ledger::{commits, Ledger, LedgerState};
use crate::namespace::{address_of, find_address, key1, Namespace};
use crate::state::user::{
    MAX_BIO_LEN, MAX_DISPLAY_NAME_LEN, MAX_PROFILE_IMAGE_LEN, MAX_USERNAME_LEN,
};
use crate::state::{UserProfile, UserProfileView, UserStats};
use crate::text::{byte_len, require_at_most, require_not_empty};
use vstd::prelude::*;

verus! {

/// The records that creating a profile touches.
#[derive(Clone, Copy, Debug, PartialEq, Eq)]
pub struct CreateUserProfile {
    /// Where the profile will live.
    pub user_profile: Address,
    /// Where the statistics will live.
    pub user_stats: Address,
    /// The identity the profile belongs to.
    pub authority: Address,
}

impl CreateUserProfile {
    /// The addresses are those of `authority`'s profile and statistics.
    pub open spec fn resolves(self, program_id: Seq<u8>, authority: Seq<u8>) -> bool {
        &&& self.authority@ == authority
        &&& address_of(program_id, Namespace::UserProfile, seq![authority]) == Some(
            self.user_profile@,
        )
        &&& address_of(program_id, Namespace::UserStats, seq![authority]) == Some(
            self.user_stats@,
        )
    }

    /// The records for this key, where every one of them has an address.
    pub open spec fn resolution(
        program_id: Seq<u8>,
        authority: Seq<u8>,
    ) -> Option<CreateUserProfile> {
        if exists|ctx: CreateUserProfile| ctx.resolves(program_id, authority) {
            Some(choose|ctx: CreateUserProfile| ctx.resolves(program_id, authority))
        } else {
            None
        }
    }

    /// A key has one resolution.
    pub proof fn lemma_resolution(self, program_id: Seq<u8>, authority: Seq<u8>)
        requires
            self.resolves(program_id, authority),
        ensures
            Self::resolution(program_id, authority) == Some(self),
    {
        let other = choose|ctx: CreateUserProfile| ctx.resolves(program_id, authority);
        lemma_address_of_bytes(other.user_profile, self.user_profile);
        lemma_address_of_bytes(other.user_stats, self.user_stats);
        lemma_address_of_bytes(other.authority, self.authority);
    }

    /// Derives the addresses.
    pub fn resolve(program_id: &Address, authority: &Address) -> (r: Option<CreateUserProfile>)
        ensures
            r == Self::resolution(program_id@, authority@),
            match r {
                Some(ctx) => ctx.resolves(program_id@, authority@),
                None => address_of(program_id@, Namespace::UserProfile, seq![authority@]) is None
                    || address_of(program_id@, Namespace::UserStats, seq![authority@]) is None,
            },
    {
        let user_profile = find_address(
            program_id,
            Namespace::UserProfile,
            key1(authority.to_seed()),
        )?;
        let user_stats = find_address(program_id, Namespace::UserStats, key1(authority.to_seed()))?;
        let ctx = CreateUserProfile { user_profile, user_stats, authority: *authority };
        proof {
            ctx.lemma_resolution(program_id@, authority@);
        }
        Some(ctx)
    }
}

/// The records that editing a profile touches.
#[derive(Clone, Copy, Debug, PartialEq, Eq)]
pub struct UpdateUserProfile {
    /// The profile edited.
    pub user_profile: Address,
    /// The statistics kept beside it.
    pub user_stats: Address,
    /// The identity that asks for the edit.
    pub authority: Address,
}

impl UpdateUserProfile {
    /// The addresses are those of `authority`'s profile and statistics.
    pub open spec fn resolves(self, program_id: Seq<u8>, authority: Seq<u8>) -> bool {
        &&& self.authority@ == authority
        &&& address_of(program_id, Namespace::UserProfile, seq![authority]) == Some(
            self.user_profile@,
        )
        &&& address_of(program_id, Namespace::UserStats, seq![authority]) == Some(
            self.user_stats@,
        )
    }

    /// The records for this key, where every one of them has an address.
    pub open spec fn resolution(
        program_id: Seq<u8>,
        authority: Seq<u8>,
    ) -> Option<UpdateUserProfile> {
        if exists|ctx: UpdateUserProfile| ctx.resolves(program_id, authority) {
            Some(choose|ctx: UpdateUserProfile| ctx.resolves(program_id, authority))
        } else {
            None
        }
    }

    /// A key has one resolution.
    pub proof fn lemma_resolution(self, program_id: Seq<u8>, authority: Seq<u8>)
        requires
            self.resolves(program_id, authority),
        ensures
            Self::resolution(program_id, authority) == Some(self),
    {
        let other = choose|ctx: UpdateUserProfile| ctx.resolves(program_id, authority);
        lemma_address_of_bytes(other.user_profile, self.user_profile);
        lemma_address_of_bytes(other.user_stats, self.user_stats);
        lemma_address_of_bytes(other.authority, self.authority);
    }

    /// Derives the addresses.
    pub fn resolve(program_id: &Address, authority: &Address) -> (r: Option<UpdateUserProfile>)
        ensures
            r == Self::resolution(program_id@, authority@),
            match r {
                Some(ctx) => ctx.resolves(program_id@, authority@),
                None => address_of(program_id@, Namespace::UserProfile, seq![authority@]) is None
                    || address_of(program_id@, Namespace::UserStats, seq![authority@]) is None,
            },
    {
        let user_profile = find_address(
            program_id,
            Namespace::UserProfile,
            key1(authority.to_seed()),
        )?;
        let user_stats = find_address(program_id, Namespace::UserStats, key1(authority.to_seed()))?;
        let ctx = UpdateUserProfile { user_profile, user_stats, authority: *authority };
        proof {
            ctx.lemma_resolution(program_id@, authority@);
        }
        Some(ctx)
    }
}

/// The first rule that the fields of a new profile break, if any.
pub open spec fn profile_rejection(
    username: Seq<char>,
    display_name: Seq<char>,
    bio: Seq<char>,
    profile_image: Seq<char>,
) -> Option<SpotifyError> {
    if byte_len(username) > MAX_USERNAME_LEN {
        Some(SpotifyError::UsernameTooLong)
    } else if byte_len(username) == 0 {
        Some(SpotifyError::UsernameEmpty)
    } else if byte_len(display_name) > MAX_DISPLAY_NAME_LEN {
        Some(SpotifyError::DisplayNameTooLong)
    } else if byte_len(bio) > MAX_BIO_LEN {
        Some(SpotifyError::BioTooLong)
    } else if byte_len(profile_image) > MAX_PROFILE_IMAGE_LEN {
        Some(SpotifyError::ProfileImageUrlTooLong)
    } else {
        None
    }
}

/// Checks the fields of a new profile, in the order of [`profile_rejection`].
pub fn validate_profile(
    username: &String,
    display_name: &String,
    bio: &String,
    profile_image: &String,
) -> (r: Result<(), SpotifyError>)
    ensures
        r == match profile_rejection(username@, display_name@, bio@, profile_image@) {
            Some(e) => Err::<(), SpotifyError>(e),
            None => Ok(()),
        },
{
    require_at_most(username, MAX_USERNAME_LEN, SpotifyError::UsernameTooLong)?;
    require_not_empty(username, SpotifyError::UsernameEmpty)?;
    require_at_most(display_name, MAX_DISPLAY_NAME_LEN, SpotifyError::DisplayNameTooLong)?;
    require_at_most(bio, MAX_BIO_LEN, SpotifyError::BioTooLong)?;
    require_at_most(profile_image, MAX_PROFILE_IMAGE_LEN, SpotifyError::ProfileImageUrlTooLong)?;
    Ok(())
}

/// What creating a profile makes of the ledger.
///
/// The fields are checked first. Then both addresses must be free. The
/// profile starts with no followers and follows nobody; the statistics start
/// at zero.
pub open spec fn create_user_profile_step(
    s: LedgerState,
    ctx: CreateUserProfile,
    username: Seq<char>,
    display_name: Seq<char>,
    bio: Seq<char>,
    profile_image: Seq<char>,
    now: i64,
) -> Result<LedgerState, LedgerError> {
    match profile_rejection(username, display_name, bio, profile_image) {
        Some(e) => Err(LedgerError::Program(e)),
        None => if s.profiles.contains_key(ctx.user_profile@) || s.stats.contains_key(
            ctx.user_stats@,
        ) {
            Err(LedgerError::AlreadyExists)
        } else {
            Ok(
                LedgerState {
                    profiles: s.profiles.insert(
                        ctx.user_profile@,
                        UserProfileView {
                            authority: ctx.authority,
                            username,
                            display_name,
                            bio,
                            profile_image,
                            followers_count: 0,
                            following_count: 0,
                            created_at: now,
                        },
                    ),
                    stats: s.stats.insert(
                        ctx.user_stats@,
                        UserStats {
                            user: ctx.user_profile,
                            tracks_created: 0,
                            playlists_created: 0,
                            total_likes_received: 0,
                            total_plays: 0,
                            last_active: now,
                        },
                    ),
                    ..s
                },
            )
        },
    }
}

/// Creates the profile and statistics of `ctx.authority`.
pub fn create_user_profile(
    ledger: &mut Ledger,
    ctx: &CreateUserProfile,
    username: String,
    display_name: String,
    bio: String,
    profile_image: String,
    now: i64,
) -> (r: Result<(), LedgerError>)
    requires
        old(ledger).wf(),
    ensures
        final(ledger).wf(),
        commits(
            old(ledger)@,
            create_user_profile_step(
                old(ledger)@,
                *ctx,
                username@,
                display_name@,
                bio@,
                profile_image@,
                now,
            ),
            r,
            final(ledger)@,
        ),
        old(ledger)@.valid() ==> final(ledger)@.valid(),
{
    match validate_profile(&username, &display_name, &bio, &profile_image) {
        Err(e) => {
            return Err(LedgerError::Program(e));
        },
        Ok(()) => {},
    }
    if ledger.profiles.contains(&ctx.user_profile) || ledger.stats.contains(&ctx.user_stats) {
        return Err(LedgerError::AlreadyExists);
    }
    ledger.profiles.put(
        ctx.user_profile,
        UserProfile {
            authority: ctx.authority,
            username,
            display_name,
            bio,
            profile_image,
            followers_count: 0,
            following_count: 0,
            created_at: now,
        },
    );
    ledger.stats.put(
        ctx.user_stats,
        UserStats {
            user: ctx.user_profile,
            tracks_created: 0,
            playlists_created: 0,
            total_likes_received: 0,
            total_plays: 0,
            last_active: now,
        },
    );
    Ok(())
}

/// A text that may be absent, as characters.
pub open spec fn optional_text(text: Option<String>) -> Option<Seq<char>> {
    match text {
        Some(t) => Some(t@),
        None => None,
    }
}

/// Whether a text that is present exceeds `max` bytes.
pub open spec fn exceeds(text: Option<Seq<char>>, max: usize) -> bool {
    match text {
        Some(t) => byte_len(t) > max,
        None => false,
    }
}

/// The new value of a field: the text given, or the old value where none is.
pub open spec fn replaced(old_text: Seq<char>, text: Option<Seq<char>>) -> Seq<char> {
    match text {
        Some(t) => t,
        None => old_text,
    }
}

/// The first rule that the fields of an edit break, if any.
pub open spec fn update_rejection(
    display_name: Option<Seq<char>>,
    bio: Option<Seq<char>>,
    profile_image: Option<Seq<char>>,
) -> Option<SpotifyError> {
    if exceeds(display_name, MAX_DISPLAY_NAME_LEN) {
        Some(SpotifyError::DisplayNameTooLong)
    } else if exceeds(bio, MAX_BIO_LEN) {
        Some(SpotifyError::BioTooLong)
    } else if exceeds(profile_image, MAX_PROFILE_IMAGE_LEN) {
        Some(SpotifyError::ProfileImageUrlTooLong)
    } else {
        None
    }
}

fn require_optional_at_most(text: &Option<String>, max: usize, error: SpotifyError) -> (r: Result<
    (),
    SpotifyError,
>)
    ensures
        r == if exceeds(optional_text(*text), max) {
            Err::<(), SpotifyError>(error)
        } else {
            Ok(())
        },
{
    match text {
        Some(t) => require_at_most(t, max, error),
        None => Ok(()),
    }
}

/// Checks the fields of an edit, in the order of [`update_rejection`].
pub fn validate_update(
    display_name: &Option<String>,
    bio: &Option<String>,
    profile_image: &Option<String>,
) -> (r: Result<(), SpotifyError>)
    ensures
        r == match update_rejection(
            optional_text(*display_name),
            optional_text(*bio),
            optional_text(*profile_image),
        ) {
            Some(e) => Err::<(), SpotifyError>(e),
            None => Ok(()),
        },
{
    require_optional_at_most(display_name, MAX_DISPLAY_NAME_LEN, SpotifyError::DisplayNameTooLong)?;
    require_optional_at_most(bio, MAX_BIO_LEN, SpotifyError::BioTooLong)?;
    require_optional_at_most(
        profile_image,
        MAX_PROFILE_IMAGE_LEN,
        SpotifyError::ProfileImageUrlTooLong,
    )?;
    Ok(())
}

/// What editing a profile makes of the ledger.
///
/// The fields given are checked first. Profile and statistics must exist and
/// the profile must belong to `ctx.authority`. Each field given replaces the
/// old one; the username and the counters stay. `last_active` becomes `now`.
pub open spec fn update_user_profile_step(
    s: LedgerState,
    ctx: UpdateUserProfile,
    display_name: Option<Seq<char>>,
    bio: Option<Seq<char>>,
    profile_image: Option<Seq<char>>,
    now: i64,
) -> Result<LedgerState, LedgerError> {
    match update_rejection(display_name, bio, profile_image) {
        Some(e) => Err(LedgerError::Program(e)),
        None => if !s.profiles.contains_key(ctx.user_profile@) || !s.stats.contains_key(
            ctx.user_stats@,
        ) {
            Err(LedgerError::NotFound)
        } else if s.profiles[ctx.user_profile@].authority@ != ctx.authority@ {
            Err(LedgerError::Program(SpotifyError::Unauthorized))
        } else {
            let profile = s.profiles[ctx.user_profile@];
            Ok(
                LedgerState {
                    profiles: s.profiles.insert(
                        ctx.user_profile@,
                        UserProfileView {
                            display_name: replaced(profile.display_name, display_name),
                            bio: replaced(profile.bio, bio),
                            profile_image: replaced(profile.profile_image, profile_image),
                            ..profile
                        },
                    ),
                    stats: s.stats.insert(
                        ctx.user_stats@,
                        UserStats { last_active: now, ..s.stats[ctx.user_stats@] },
                    ),
                    ..s
                },
            )
        },
    }
}

/// Edits the profile at `ctx.user_profile`.
pub fn update_user_profile(
    ledger: &mut Ledger,
    ctx: &UpdateUserProfile,
    display_name: Option<String>,
    bio: Option<String>,
    profile_image: Option<String>,
    now: i64,
) -> (r: Result<(), LedgerError>)
    requires
        old(ledger).wf(),
    ensures
        final(ledger).wf(),
        commits(
            old(ledger)@,
            update_user_profile_step(
                old(ledger)@,
                *ctx,
                optional_text(display_name),
                optional_text(bio),
                optional_text(profile_image),
                now,
            ),
            r,
            final(ledger)@,
        ),
        old(ledger)@.valid() ==> final(ledger)@.valid(),
{
    match validate_update(&display_name, &bio, &profile_image) {
        Err(e) => {
            return Err(LedgerError::Program(e));
        },
        Ok(()) => {},
    }
    let owned = match ledger.profiles.get(&ctx.user_profile) {
        Some(p) => p.authority.same(&ctx.authority),
        None => {
            return Err(LedgerError::NotFound);
        },
    };
    let stats = match ledger.stats.get(&ctx.user_stats) {
        Some(s) => *s,
        None => {
            return Err(LedgerError::NotFound);
        },
    };
    if !owned {
        return Err(LedgerError::Program(SpotifyError::Unauthorized));
    }
    let mut profile = ledger.profiles.take(&ctx.user_profile).unwrap();
    let ghost before = profile@;
    match display_name {
        Some(t) => {
            profile.display_name = t;
        },
        None => {},
    }
    match bio {
        Some(t) => {
            profile.bio = t;
        },
        None => {},
    }
    match profile_image {
        Some(t) => {
            profile.profile_image = t;
        },
        None => {},
    }
    ledger.profiles.put(ctx.user_profile, profile);
    ledger.stats.put(ctx.user_stats, UserStats { last_active: now, ..stats });
    proof {
        let s = old(ledger)@;
        assert(ledger@.profiles =~= s.profiles.insert(
            ctx.user_profile@,
            UserProfileView {
                display_name: replaced(before.display_name, optional_text(display_name)),
                bio: replaced(before.bio, optional_text(bio)),
                profile_image: replaced(before.profile_image, optional_text(profile_image)),
                ..before
            },
        ));
    }
    Ok(())
}

} // verus!
