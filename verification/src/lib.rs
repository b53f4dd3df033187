//! Astralink: the queue, resolver and streaming rules of a music node.
pub mod api;
pub mod audio;
pub mod collections;
pub mod command;
pub mod config;
pub mod json;
pub mod laws;
pub mod model;
pub mod net;
pub mod records;
pub mod resolve;
pub mod state;
pub mod text;
pub mod track_id;
