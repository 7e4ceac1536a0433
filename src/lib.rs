//! Moderation for a chat bot.
//!
//! The core is the action executor: what each moderation action asks of the
//! platform and of the escalation store, how failures are classified, and
//! how a time-bounded action is reversed. Around it: finding moderators,
//! queueing guilds for member chunking, message links, component ids, the
//! cache configuration and shard selection.

pub mod action;
pub mod chunker;
pub mod cluster;
pub mod components;
pub mod config;
pub mod executor;
pub mod message;
pub mod moderation;
pub mod moderators;
pub mod request;
pub mod roles;
pub mod text;
