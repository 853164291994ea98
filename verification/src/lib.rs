//! Native-backend logic for a spotlight-style desktop launcher.
//!
//! The platform glue (window chrome, native event loops, RPC plumbing) lives
//! outside this crate; here stand the decisions and computations that the
//! glue drives: authorization-state handling, the one-shot completion
//! bridges, search-predicate construction, identifier and encoding helpers,
//! and the bounded result buffers.

pub mod bridge;
pub mod bundles;
pub mod calendar;
pub mod datetime;
pub mod encoding;
pub mod favicon;
pub mod icons;
pub mod panel;
pub mod predicate;
pub mod secrets;
pub mod spotlight;
pub mod text;
pub mod theme;
pub mod workspace;
