//! Client-side logic for uploading binary payloads to a remote store over
//! HTTP.
//!
//! The crate holds everything an upload decides: which URI a payload is
//! posted to, how a response status is judged, how body chunks are collected
//! and how the store's identifier is decoded. Network I/O is left to the
//! caller, who sends the composed request and feeds what comes back into
//! [`progress::UploadState::step`].
pub mod client;
pub mod error;
pub mod identifier;
pub mod laws;
pub mod progress;
pub mod resource;
pub mod response;
pub mod target;
