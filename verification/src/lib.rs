//! A verified core for a dark-mode preference toggle.
//!
//! The durable store is a single HTTP cookie named `darkmode` holding
//! `"true"` or `"false"`. A remote toggle action sets that cookie on the
//! response and echoes the requested value back; while the round trip is in
//! flight the UI optimistically shows the requested value. This crate holds
//! the pure logic of that pattern: resolving the effective preference from
//! pending, confirmed and initial sources, the per-view submission state
//! machine, reading the initial preference out of a cookie header, and
//! building the `Set-Cookie` value the action answers with. The web
//! framework around it (rendering, routing, the HTTP server) stays outside.

pub mod action;
pub mod cookie;
pub mod resolve;
pub mod view;

pub use resolve::ActionError;
pub use resolve::ToggleState;
pub use resolve::resolve;
pub use resolve::spec_resolve;
