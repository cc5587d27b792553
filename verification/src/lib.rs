//! Start-up, deep-link and window logic of the Clash Verge desktop client,
//! written as verified state machines and parsers. The asynchronous plumbing
//! around them (windows, the embedded HTTP server, timers) lives in the
//! companion application crate, which feeds each decision its observations.

pub mod ui_ready;
pub mod window;
pub mod text;
pub mod scheme;
pub mod startup_import;
pub mod startup;
pub mod server;

