//! Decision logic of a chat bot that fetches videos and audio with yt-dlp:
//! which links it answers, which kind of media it asks for, the command line
//! it runs, and the texts it replies with.

pub mod text;
pub mod media;
pub mod config;
pub mod links;
pub mod error;
pub mod ytdlp;
pub mod routing;
pub mod handlers;
pub mod guest;
pub mod delivery;
