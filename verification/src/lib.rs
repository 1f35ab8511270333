//! A configuration-driven dispatch engine for a desktop file-chooser service.
//!
//! The library decides, from a hot-reloadable configuration file, which
//! sibling file-chooser backend on the message bus should handle each
//! operation (open, save-single, save-multiple), and exposes the pure,
//! verified parts of that engine: the configuration parser, the
//! configuration record and its selection logic, the snapshot/replace
//! store, and the watch-event classification. The surrounding process
//! (bus registration, file I/O, the forwarded calls themselves) lives
//! outside the library and hands it plain values.

pub mod backends;
pub mod config;
pub mod laws;
pub mod parse;
pub mod protaltypes;
pub mod service;
pub mod store;
pub mod watch;
