//! How a search text or a link becomes tracks.
pub mod preload;
pub mod soundcloud;
pub mod spotify;
pub mod ytdl;
