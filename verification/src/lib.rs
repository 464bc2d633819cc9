//! A verified orchestration library for capturing a screenshot of a web page
//! through an external headless browser.
//!
//! The browser itself (rendering, navigation, the remote-debugging wire
//! protocol) is an outside collaborator; this crate holds the logic around it:
//! the run configuration, the capture request derived from it, the fixed
//! step sequence that drives the browser, and the single result record that
//! every run produces, whose shape is proved well-formed.

pub mod config;
pub mod encode;
pub mod report;
pub mod session;
