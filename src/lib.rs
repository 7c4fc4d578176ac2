//! Session logic of a terminal client for a video-sharing platform: focus and
//! mode handling, the command language, fetch bookkeeping and response helpers.

pub mod text;
pub mod weburl;
pub mod command;
pub mod api;
pub mod fetch;
pub mod app;
