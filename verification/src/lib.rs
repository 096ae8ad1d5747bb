//! Client-side streaming-session engine: connection lifecycle, message
//! framing and correlation, token provisioning, and offset-addressable
//! cache storage, together with the plain data types that the surrounding
//! application shares with it.

pub mod codec;
pub mod connection;
pub mod error;
pub mod offset;
pub mod playback;
pub mod recommend;
pub mod sequence;
pub mod session;
pub mod show;
pub mod store;
pub mod token;
pub mod web;
