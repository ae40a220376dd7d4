//! Logic of a voice-presence bot: when a member joins a designated trigger
//! voice channel, the bot creates a personal voice channel for them, moves
//! them into it, and deletes that channel once it is empty again. A registry
//! of the channels the bot created tells ephemeral channels apart from
//! pre-existing ones. A fixed text command gets a fixed reply.
//!
//! This crate holds the decisions: which actions an event calls for, and how
//! the registry changes. The gateway calls that carry the actions out are
//! left to the embedding program.

pub mod config;
pub mod handler;
pub mod registry;
pub mod snapshot;
