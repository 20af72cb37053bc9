//! A chat-bot command handler: parses a small `bucket <verb> ...` command
//! grammar and keeps short text facts keyed by topic in a relational store.

pub mod command;
pub mod handler;
pub mod laws;
pub mod num;
pub mod store;
pub mod text;
