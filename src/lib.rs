//! Core of a terminal client for a remote media catalog: item formatting,
//! catalog lookups, player invocation, the playback monitor state machine,
//! the request re-authentication policy and the registry of player processes.

pub mod catalog;
pub mod config;
pub mod frames;
pub mod item;
pub mod launcher;
pub mod monitor;
pub mod queries;
pub mod registry;
pub mod session;
pub mod text;
