//! A social music platform modelled as a graph of addressed records:
//! profiles, tracks, playlists, likes, follows, search entries and analytics.
//!
//! Every record lives at an address derived from its kind and its key
//! ([`address`], [`namespace`]), in a table of its kind ([`store`],
//! [`ledger`]). An operation is one atomic step on the ledger: it commits
//! all of its writes or none ([`instructions`], by records; [`program`], by
//! identities). Counts move by checked steps only ([`counter`]), a shared
//! playlist is guarded by capabilities ([`permission`]), and every record
//! has a fixed layout in bytes ([`layout`]). What holds across several
//! operations is stated in [`laws`].
//!
//! Two smaller programs of the same pattern stand beside it: a lockable
//! vault ([`vault`]) and comments and reactions on tweets ([`twitter`]).

pub mod address;
pub mod counter;
pub mod digest;
pub mod errors;
pub mod instructions;
pub mod laws;
pub mod layout;
pub mod ledger;
pub mod namespace;
pub mod permission;
pub mod program;
pub mod state;
pub mod store;
pub mod text;
pub mod twitter;
pub mod vault;
