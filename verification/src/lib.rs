//! The verified core of Git Reel, a local-first reel for browsing GitHub repositories one
//! at a time: the rules of the discovery queue, the event log and the history, going back
//! through the reel, tags and the saved search, the stored repository rows, the GitHub
//! OAuth flow's decisions, and the shaping of GitHub's answers.

pub mod auth;
pub mod config;
pub mod cookies;
pub mod discovery;
pub mod error;
pub mod events;
pub mod github;
pub mod models;
pub mod queue;
pub mod repositories;
pub mod search;
pub mod tags;
pub mod text;
