//! Verified logic of a media sink element that streams H.264 video to web
//! browsers over WebRTC.
pub mod assets;
pub mod description;
pub mod element;
pub mod media;
pub mod pipeline;
pub mod server;
pub mod session;
pub mod settings;
pub mod signal;
pub mod text;
