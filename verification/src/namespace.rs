//! The seeds of each kind of record.
//!
//! A record's address is derived from a tag that names its kind, followed by
//! the bytes of its key. Two kinds never share a tag, and a key always lists
//! its parts in the order given here. The derivation reads the parts one
//! after the other with nothing between them, so two keys of one kind whose
//! parts run together to the same bytes share an address.

use crate::address::{derive_address, derived, seeds_view, Address, MAX_SEEDS, MAX_SEED_LEN};
use crate::text::text_bytes;
use vstd::bytes::*;
use vstd::prelude::*;
use vstd::string::*;

verus! {

/// The kinds of record, each with its tag.
#[derive(Clone, Copy, Debug, PartialEq, Eq, Structural)]
pub enum Namespace {
    UserProfile,
    UserStats,
    Track,
    TrackPlay,
    Playlist,
    PlaylistTrack,
    PlaylistCollaborator,
    TrackLike,
    UserFollow,
    ActivityFeed,
    SearchIndex,
    UserInsights,
    Recommendation,
}

impl Namespace {
    /// The tag as text.
    pub open spec fn spec_tag(self) -> &'static str {
        match self {
            Namespace::UserProfile => "user_profile",
            Namespace::UserStats => "user_stats",
            Namespace::Track => "track",
            Namespace::TrackPlay => "track_play",
            Namespace::Playlist => "playlist",
            Namespace::PlaylistTrack => "playlist_track",
            Namespace::PlaylistCollaborator => "playlist_collaborator",
            Namespace::TrackLike => "track_like",
            Namespace::UserFollow => "user_follow",
            Namespace::ActivityFeed => "activity_feed",
            Namespace::SearchIndex => "search_index",
            Namespace::UserInsights => "user_insights",
            Namespace::Recommendation => "recommendation",
        }
    }

    /// The tag as text.
    pub fn tag(&self) -> (t: &'static str)
        ensures
            t == self.spec_tag(),
    {
        match self {
            Namespace::UserProfile => "user_profile",
            Namespace::UserStats => "user_stats",
            Namespace::Track => "track",
            Namespace::TrackPlay => "track_play",
            Namespace::Playlist => "playlist",
            Namespace::PlaylistTrack => "playlist_track",
            Namespace::PlaylistCollaborator => "playlist_collaborator",
            Namespace::TrackLike => "track_like",
            Namespace::UserFollow => "user_follow",
            Namespace::ActivityFeed => "activity_feed",
            Namespace::SearchIndex => "search_index",
            Namespace::UserInsights => "user_insights",
            Namespace::Recommendation => "recommendation",
        }
    }
}

/// The seeds of a key: the tag's bytes, then each part.
pub open spec fn seeds_of(namespace: Namespace, parts: Seq<Seq<u8>>) -> Seq<Seq<u8>> {
    seq![namespace.spec_tag().spec_bytes()] + parts
}

/// The address of the record of kind `namespace` with key `parts`.
pub open spec fn address_of(program_id: Seq<u8>, namespace: Namespace, parts: Seq<Seq<u8>>)
    -> Option<Seq<u8>> {
    derived(seeds_of(namespace, parts), program_id)
}

/// Whether a part of the key is longer than a seed may be, so that the key
/// has no address.
pub open spec fn has_long_part(parts: Seq<Seq<u8>>) -> bool {
    exists|i: int| 0 <= i < parts.len() && (#[trigger] parts[i]).len() > MAX_SEED_LEN
}

/// The eight little-endian bytes of a timestamp.
pub open spec fn timestamp_bytes(t: i64) -> Seq<u8> {
    spec_u64_to_le_bytes(t as u64)
}

/// Derives the address of the record of kind `namespace` with key `parts`.
pub fn find_address(program_id: &Address, namespace: Namespace, parts: Vec<Vec<u8>>) -> (address:
    Option<Address>)
    ensures
        match address {
            Some(a) => address_of(program_id@, namespace, seeds_view(parts@)) == Some(a@),
            None => address_of(program_id@, namespace, seeds_view(parts@)) is None,
        },
        has_long_part(seeds_view(parts@)) ==> address is None,
        parts@.len() + 1 >= MAX_SEEDS ==> address is None,
{
    let mut seeds: Vec<Vec<u8>> = Vec::new();
    seeds.push(text_bytes(namespace.tag()));
    let mut parts = parts;
    let ghost all = parts@;
    let ghost head = seeds@;
    seeds.append(&mut parts);
    proof {
        assert(seeds@ == head + all);
        assert(seeds_view(seeds@) =~= seeds_of(namespace, seeds_view(all)));
        if has_long_part(seeds_view(all)) {
            let i = choose|i: int|
                0 <= i < seeds_view(all).len() && (#[trigger] seeds_view(all)[i]).len()
                    > MAX_SEED_LEN;
            assert(seeds_view(seeds@)[i + 1] == seeds_view(all)[i]);
        }
    }
    derive_address(&seeds, program_id)
}

/// A key of one part.
pub fn key1(a: Vec<u8>) -> (key: Vec<Vec<u8>>)
    ensures
        seeds_view(key@) == seq![a@],
        has_long_part(seeds_view(key@)) == (a@.len() > MAX_SEED_LEN),
{
    let mut key: Vec<Vec<u8>> = Vec::new();
    key.push(a);
    proof {
        assert(seeds_view(key@) =~= seq![a@]);
        if a@.len() > MAX_SEED_LEN {
            assert(seeds_view(key@)[0].len() > MAX_SEED_LEN);
        }
    }
    key
}

/// A key of two parts.
pub fn key2(a: Vec<u8>, b: Vec<u8>) -> (key: Vec<Vec<u8>>)
    ensures
        seeds_view(key@) == seq![a@, b@],
        has_long_part(seeds_view(key@)) == (a@.len() > MAX_SEED_LEN || b@.len() > MAX_SEED_LEN),
{
    let mut key: Vec<Vec<u8>> = Vec::new();
    key.push(a);
    key.push(b);
    proof {
        assert(seeds_view(key@) =~= seq![a@, b@]);
        if a@.len() > MAX_SEED_LEN {
            assert(seeds_view(key@)[0].len() > MAX_SEED_LEN);
        }
        if b@.len() > MAX_SEED_LEN {
            assert(seeds_view(key@)[1].len() > MAX_SEED_LEN);
        }
    }
    key
}

/// A key of three parts.
pub fn key3(a: Vec<u8>, b: Vec<u8>, c: Vec<u8>) -> (key: Vec<Vec<u8>>)
    ensures
        seeds_view(key@) == seq![a@, b@, c@],
        has_long_part(seeds_view(key@)) == (a@.len() > MAX_SEED_LEN || b@.len() > MAX_SEED_LEN
            || c@.len() > MAX_SEED_LEN),
{
    let mut key: Vec<Vec<u8>> = Vec::new();
    key.push(a);
    key.push(b);
    key.push(c);
    proof {
        assert(seeds_view(key@) =~= seq![a@, b@, c@]);
        if a@.len() > MAX_SEED_LEN {
            assert(seeds_view(key@)[0].len() > MAX_SEED_LEN);
        }
        if b@.len() > MAX_SEED_LEN {
            assert(seeds_view(key@)[1].len() > MAX_SEED_LEN);
        }
        if c@.len() > MAX_SEED_LEN {
            assert(seeds_view(key@)[2].len() > MAX_SEED_LEN);
        }
    }
    key
}

/// A single byte as a key part.
pub fn byte_part(b: u8) -> (v: Vec<u8>)
    ensures
        v@ == seq![b],
{
    let mut v: Vec<u8> = Vec::new();
    v.push(b);
    v
}

/// A count as a key part.
pub fn count_part(n: u64) -> (v: Vec<u8>)
    ensures
        v@ == spec_u64_to_le_bytes(n),
{
    u64_to_le_bytes(n)
}

/// A timestamp as a key part.
pub fn timestamp_part(t: i64) -> (v: Vec<u8>)
    ensures
        v@ == timestamp_bytes(t),
{
    u64_to_le_bytes(#[verifier::truncate] (t as u64))
}

} // verus!
