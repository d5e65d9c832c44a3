//! Change detection for a periodically fetched weather forecast.
//!
//! The crate holds the decisions of a polling engine: how a forecast text is
//! fingerprinted, when a stored text counts as changed, which storage slots
//! have to be created on a first run, how a text is cut into fragments for a
//! length-constrained transport, and the state machine that strings these
//! steps into one polling cycle. Fetching, storage and sleeping are left to
//! the caller, which performs each [`poll::Action`] and reports the outcome
//! as a [`poll::Event`].

pub mod chunker;
pub mod condense;
pub mod config;
pub mod error;
pub mod fingerprint;
pub mod model;
pub mod poll;
pub mod slot;
pub mod strings;
