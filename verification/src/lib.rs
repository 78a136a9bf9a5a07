//! Review-and-publication pipeline for anonymously suggested wiki edits.
//!
//! Visitors propose a full-text replacement for a wiki page; each proposal is
//! recorded as an [`models::Edit`] in the `pending` state.  A logged-in
//! moderator inspects a rendered diff and either approves the proposal, which
//! publishes it to the wiki attributed to the anonymous submitter, or rejects
//! it.  Both outcomes are terminal.
//!
//! The crate verifies the pieces of that pipeline that are pure logic: the
//! edit store and its lifecycle invariant ([`store`]), the request payloads
//! and response classification for the remote wiki API ([`api`]), the decimal
//! rendering of numeric identifiers ([`decimal`]), and the review state
//! machine together with its token gate ([`review`] and [`session`]).  The
//! network and persistence round trips themselves are collaborators at the
//! edge: callers perform them and hand the observed outcomes back in as plain
//! values.

pub mod api;
pub mod decimal;
pub mod models;
pub mod review;
pub mod session;
pub mod store;
pub mod text;
