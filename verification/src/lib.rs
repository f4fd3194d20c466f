//! A store of named shell snippets, written without any I/O of its own.
//!
//! The store decides; its caller acts. Every operation on the store is a
//! conversation: the store hands out an [`protocol::Action`], the caller
//! performs it against the real world and reports what happened as an
//! [`protocol::Event`], and the store answers with the next action until it
//! hands out [`protocol::Action::Finish`].
//!
//! [`state`] holds the store, [`model`] what it does as a state machine over
//! plain values, and [`laws`] what is proved of every run of that machine.
//! [`fzf`] holds the pieces of a selection through the fuzzy finder,
//! [`settings`] the settings and their defaults, [`keys`] the test of a
//! settings document's keys, [`path`] and [`text`] the handling of names
//! and white space.

pub mod text;
pub mod path;
pub mod keys;
pub mod protocol;
pub mod fzf;
pub mod model;
pub mod state;
pub mod laws;
pub mod settings;
