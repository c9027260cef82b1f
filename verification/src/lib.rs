//! A loopback proxy for HLS playback: it decides how a request that the
//! viewer makes is forwarded upstream, and rewrites the playlists that come
//! back so that every later fetch passes through the proxy again.

pub mod api;
pub mod encode;
pub mod headers;
pub mod json;
pub mod loopback;
pub mod playlist;
pub mod query;
pub mod request;
pub mod response;
pub mod text;
