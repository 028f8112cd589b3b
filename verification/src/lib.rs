//! Resolves the address of a video page into the address of a playable
//! stream, without doing any input or output of its own.
//!
//! A resolution finds the identifier of the video in the page address
//! (`ident`), asks the metadata endpoint for the routing identifiers and
//! the playback endpoint for the media addresses (`request`, `headers`),
//! reads their replies (`reply`) and, where a single file was asked for,
//! sends its address to a reachable mirror (`cdn`). `resolve` puts the
//! steps in order; the caller sends each request and hands back the reply.

pub mod cdn;
pub mod error;
pub mod headers;
pub mod ident;
pub mod model;
pub mod reply;
pub mod request;
pub mod resolve;
pub mod text;

pub use crate::error::{FetchError, ResolveError};
pub use crate::model::{VideoInfo, VideoPlayUrl};
pub use crate::request::{PlaybackMode, Request};
pub use crate::resolve::{begin, Session};
