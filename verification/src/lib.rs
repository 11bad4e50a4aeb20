//! Release tracking for GitHub repositories: the tag cache, the version
//! lookup protocol, the polling cycle and the text that goes out to chats.
//!
//! Everything here works on plain values. Network, database and chat I/O are
//! left to the caller, which performs the actions these modules ask for and
//! hands the results back.

pub mod bot;
pub mod configuration;
pub mod github;
pub mod ids;
pub mod poller;
pub mod text;
pub mod time;
pub mod tracked_repositories;
pub mod utils;
