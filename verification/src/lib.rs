//! The command pipeline of a chat bot, verified with Verus.
//!
//! A message comes in with the identity of its author. The pipeline parses
//! it under the configured prefix, looks the command up, holds the number of
//! arguments against the command's bounds, asks the authorization policy
//! whether the author may run the command, runs the handler, and says what
//! to send back:
//!
//! - [`parser`] splits a message body into a command name and raw arguments;
//! - [`registry`] maps command names to descriptors;
//! - [`policy`] decides which sender may run which command, and [`config`]
//!   holds the settings that the policy is made from;
//! - [`handlers`] holds what the commands do;
//! - [`outcome`] holds the outcomes of an invocation and the text that
//!   answers each;
//! - [`dispatcher`] drives one invocation through its states;
//! - [`laws`] states what holds of every invocation;
//! - [`text`] holds the helpers on characters and decimal numerals.
//!
//! The library does no input or output. The host hands each message to
//! [`dispatcher::Dispatcher::begin`], carries out the
//! [`dispatcher::Action`] that comes back, and hands the answer of a call on
//! the platform to [`dispatcher::Dispatcher::resume`].

pub mod config;
pub mod dispatcher;
pub mod handlers;
pub mod laws;
pub mod outcome;
pub mod parser;
pub mod policy;
pub mod registry;
pub mod text;
