//! The search index: one pointer per lower-case term and target type.
//!
//! An entry is keyed by its term and type alone, so indexing another target
//! under the same term and type replaces the pointer: the last writer wins.

use crate::address::{lemma_address_of_bytes, Address};
use crate::errors::{LedgerError, SpotifyError};
use crate::ledger::{commits, Ledger, LedgerState};
use crate::namespace::{address_of, byte_part, find_address, key2, Namespace};
use crate::state::analytics::MAX_SEARCH_TERM_LEN;
use crate::state::{SearchIndex, SearchIndexView};
use crate::text::{byte_len, lowercase, require_at_most, require_not_empty, text_bytes, to_lowercase};
use vstd::prelude::*;

verus! {

/// What a client may narrow a search by.
#[derive(Clone, Debug, PartialEq, Eq)]
pub struct SearchFilters {
    pub genre: Option<String>,
    pub min_duration: Option<u64>,
    pub max_duration: Option<u64>,
    pub min_likes: Option<u64>,
    pub created_after: Option<i64>,
}

/// One hit of a search, as a client shows it.
#[derive(Clone, Debug, PartialEq, Eq)]
pub struct SearchResult {
    pub result_type: u8,
    pub pubkey: Address,
    pub title: String,
    pub subtitle: String,
    pub likes_count: u64,
    pub created_at: i64,
}

impl SearchResult {
    pub const RESULT_TYPE_TRACK: u8 = 1;

    pub const RESULT_TYPE_PLAYLIST: u8 = 2;

    pub const RESULT_TYPE_USER: u8 = 3;
}

/// The records that indexing a term touches.
#[derive(Clone, Copy, Debug, PartialEq, Eq)]
pub struct CreateSearchIndex {
    /// Where the entry lives.
    pub search_index: Address,
    /// The actor.
    pub authority: Address,
}

impl CreateSearchIndex {
    /// The address is that of the entry for the lower-case `term` and
    /// `target_type`.
    pub open spec fn resolves(
        self,
        program_id: Seq<u8>,
        authority: Seq<u8>,
        term: Seq<char>,
        target_type: u8,
    ) -> bool {
        &&& self.authority@ == authority
        &&& address_of(
            program_id,
            Namespace::SearchIndex,
            seq![vstd::utf8::encode_utf8(term), seq![target_type]],
        ) == Some(self.search_index@)
    }

    /// The records for this key, where every one of them has an address.
    pub open spec fn resolution(
        program_id: Seq<u8>,
        authority: Seq<u8>,
        term: Seq<char>,
        target_type: u8,
    ) -> Option<CreateSearchIndex> {
        if exists|ctx: CreateSearchIndex| ctx.resolves(program_id, authority, term, target_type) {
            Some(
                choose|ctx: CreateSearchIndex|
                    ctx.resolves(program_id, authority, term, target_type),
            )
        } else {
            None
        }
    }

    /// A key has one resolution.
    pub proof fn lemma_resolution(
        self,
        program_id: Seq<u8>,
        authority: Seq<u8>,
        term: Seq<char>,
        target_type: u8,
    )
        requires
            self.resolves(program_id, authority, term, target_type),
        ensures
            Self::resolution(program_id, authority, term, target_type) == Some(self),
    {
        let other = choose|ctx: CreateSearchIndex|
            ctx.resolves(program_id, authority, term, target_type);
        lemma_address_of_bytes(other.search_index, self.search_index);
        lemma_address_of_bytes(other.authority, self.authority);
    }

    /// Derives the address from a term that is lower-case already. A term
    /// longer than a seed has no address.
    pub fn resolve(program_id: &Address, authority: &Address, term: &String, target_type: u8) -> (r:
        Option<CreateSearchIndex>)
        ensures
            r == Self::resolution(program_id@, authority@, term@, target_type),
            match r {
                Some(ctx) => ctx.resolves(program_id@, authority@, term@, target_type),
                None => address_of(
                    program_id@,
                    Namespace::SearchIndex,
                    seq![vstd::utf8::encode_utf8(term@), seq![target_type]],
                ) is None,
            },
            byte_len(term@) > 32 ==> r is None,
    {
        let search_index = find_address(
            program_id,
            Namespace::SearchIndex,
            key2(text_bytes(term.as_str()), byte_part(target_type)),
        )?;
        let ctx = CreateSearchIndex { search_index, authority: *authority };
        proof {
            ctx.lemma_resolution(program_id@, authority@, term@, target_type);
        }
        Some(ctx)
    }
}

/// The first rule that a lower-case term breaks, if any.
pub open spec fn term_rejection(term: Seq<char>) -> Option<SpotifyError> {
    if byte_len(term) > MAX_SEARCH_TERM_LEN {
        Some(SpotifyError::SearchTermTooLong)
    } else if byte_len(term) == 0 {
        Some(SpotifyError::SearchTermEmpty)
    } else {
        None
    }
}

/// Checks a lower-case term, in the order of [`term_rejection`].
pub fn validate_term(term: &String) -> (r: Result<(), SpotifyError>)
    ensures
        r == match term_rejection(term@) {
            Some(e) => Err::<(), SpotifyError>(e),
            None => Ok(()),
        },
{
    require_at_most(term, MAX_SEARCH_TERM_LEN, SpotifyError::SearchTermTooLong)?;
    require_not_empty(term, SpotifyError::SearchTermEmpty)?;
    Ok(())
}

/// What storing the entry for the lower-case `term` makes of the ledger: the
/// term is checked, then the entry at `ctx.search_index` points to `target`,
/// whatever it pointed to before.
pub open spec fn store_search_index_step(
    s: LedgerState,
    ctx: CreateSearchIndex,
    term: Seq<char>,
    target_type: u8,
    target: Address,
    now: i64,
) -> Result<LedgerState, LedgerError> {
    match term_rejection(term) {
        Some(e) => Err(LedgerError::Program(e)),
        None => Ok(
            LedgerState {
                search: s.search.insert(
                    ctx.search_index@,
                    SearchIndexView {
                        search_term: term,
                        target_type,
                        target_pubkey: target,
                        created_at: now,
                    },
                ),
                ..s
            },
        ),
    }
}

/// Stores the entry for a term that is lower-case already.
pub fn store_search_index(
    ledger: &mut Ledger,
    ctx: &CreateSearchIndex,
    term: String,
    target_type: u8,
    target_pubkey: Address,
    now: i64,
) -> (r: Result<(), LedgerError>)
    requires
        old(ledger).wf(),
    ensures
        final(ledger).wf(),
        commits(
            old(ledger)@,
            store_search_index_step(old(ledger)@, *ctx, term@, target_type, target_pubkey, now),
            r,
            final(ledger)@,
        ),
        old(ledger)@.valid() ==> final(ledger)@.valid(),
{
    match validate_term(&term) {
        Err(e) => {
            return Err(LedgerError::Program(e));
        },
        Ok(()) => {},
    }
    ledger.search.put(
        ctx.search_index,
        SearchIndex { search_term: term, target_type, target_pubkey, created_at: now },
    );
    Ok(())
}

/// Lower-cases `search_term` and stores the entry for it. The bounds apply
/// to the lower-case form, which is what is stored.
pub fn create_search_index(
    ledger: &mut Ledger,
    ctx: &CreateSearchIndex,
    search_term: String,
    target_type: u8,
    target_pubkey: Address,
    now: i64,
) -> (r: Result<(), LedgerError>)
    requires
        old(ledger).wf(),
    ensures
        final(ledger).wf(),
        commits(
            old(ledger)@,
            store_search_index_step(
                old(ledger)@,
                *ctx,
                lowercase(search_term@),
                target_type,
                target_pubkey,
                now,
            ),
            r,
            final(ledger)@,
        ),
        old(ledger)@.valid() ==> final(ledger)@.valid(),
{
    let term = to_lowercase(&search_term);
    store_search_index(ledger, ctx, term, target_type, target_pubkey, now)
}

/// The address of the entry for the lower-case `term` and `target_type`.
pub open spec fn entry_address(program_id: Seq<u8>, term: Seq<char>, target_type: u8) -> Option<
    Seq<u8>,
> {
    address_of(
        program_id,
        Namespace::SearchIndex,
        seq![vstd::utf8::encode_utf8(term), seq![target_type]],
    )
}

/// The target that the lower-case `term` points to for `target_type`, if an
/// entry is stored for them.
pub open spec fn indexed_target(s: LedgerState, term: Seq<char>, target_type: u8) -> Option<
    Address,
> {
    match entry_address(s.program_id, term, target_type) {
        Some(at) => if s.search.contains_key(at) {
            Some(s.search[at].target_pubkey)
        } else {
            None
        },
        None => None,
    }
}

/// Looks up a term that is lower-case already.
pub fn lookup_term(ledger: &Ledger, term: &String, target_type: u8) -> (r: Option<Address>)
    requires
        ledger.wf(),
    ensures
        r == indexed_target(ledger@, term@, target_type),
{
    let at = find_address(
        &ledger.program_id,
        Namespace::SearchIndex,
        key2(text_bytes(term.as_str()), byte_part(target_type)),
    )?;
    match ledger.search.get(&at) {
        Some(entry) => Some(entry.target_pubkey),
        None => None,
    }
}

/// Lower-cases `search_term` and looks it up.
pub fn lookup(ledger: &Ledger, search_term: &String, target_type: u8) -> (r: Option<Address>)
    requires
        ledger.wf(),
    ensures
        r == indexed_target(ledger@, lowercase(search_term@), target_type),
{
    let term = to_lowercase(search_term);
    lookup_term(ledger, &term, target_type)
}

} // verus!
