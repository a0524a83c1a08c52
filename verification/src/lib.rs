//! Decision core of a chat bot that relays short-video links to a downloader
//! and hands the produced file back to the requester.

pub mod config;
pub mod credentials;
pub mod effect;
pub mod job;
pub mod links;
pub mod message;
pub mod poller;
pub mod router;
pub mod text;
pub mod workspace;
