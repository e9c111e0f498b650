//! Decision logic of a feed-to-webhook relay: which posts of a listing
//! qualify, what the claim on a post identifier means for delivery, what the
//! notification for a post says, and how the polling loop moves from phase to
//! phase.  Everything here works on plain values; fetching, storing and
//! sending are left to the program that drives the loop.
//!
//! - [`model`]: the records of a listing and the posts among them.
//! - [`filter`]: the filter chain.
//! - [`store`]: the outcome of a claim, read from the end of an insert.
//! - [`notify`]: the message for a post.
//! - [`poll`]: the loop's phases, its memory, and its decisions per post.
//! - [`cycle`]: a model of whole cycles against the table, with what holds of it.
//! - [`auth`]: the credentials that the feed asks for.

pub mod model;
pub mod filter;
pub mod store;
pub mod notify;
pub mod poll;
pub mod cycle;
pub mod auth;
