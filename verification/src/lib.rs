//! The logic of the Phi Bitwarden helper: the out-of-process vault helper that
//! answers credential requests over a socketpair. Everything here computes on
//! plain values; the socket, the clock, the file system and the Bitwarden SDK
//! are the application's.

pub mod cipher;
pub mod codec;
pub mod command;
pub mod device;
pub mod engine;
pub mod fields;
pub mod frame;
pub mod json;
pub mod lookup;
pub mod protocol;
pub mod reply;
pub mod request;
pub mod server;
pub mod session;
pub mod signin;
pub mod text;
pub mod uri;
pub mod views;
