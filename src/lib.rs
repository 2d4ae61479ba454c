//! Control plane for a hardware audio mixer reached over a spliced TCP
//! session.
//!
//! - `frame`: the wire envelope and the session id seen in observed traffic
//! - `names`: mix outputs, sources and faders, their indices and aliases
//! - `protocol`, `mix`: payload layouts of the device commands
//! - `text`, `commands`: the control channel's commands and their grammar
//! - `sniffer`: collapsing of repeated frames in observed traffic
//! - `proxy`: per-connection session learning and injected frames

pub mod commands;
pub mod frame;
pub mod level;
pub mod mix;
pub mod names;
pub mod protocol;
pub mod proxy;
pub mod sniffer;
pub mod text;
