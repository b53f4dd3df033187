//! What the operations of the node are for, stated of their calls: each law takes the arguments
//! and the result of a call, or of calls that belong together, and says how they relate.
pub mod api;
pub mod command;
pub mod config;
pub mod model;
pub mod net;
pub mod playback;
pub mod preload;
pub mod search;
pub mod soundcloud;
pub mod spotify;
pub mod state;
pub mod stream;
pub mod text;
