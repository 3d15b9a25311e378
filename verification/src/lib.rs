//! A menu-bar calendar utility: fetches upcoming events through an external
//! helper process, toggles an alert window, and routes tray-menu events.
//!
//! This crate holds the decision logic: what the fetcher returns for each
//! outcome of the helper process, which window-attribute changes the two
//! alert-mode transitions perform, and how tray and menu events dispatch.
//! The OS-facing glue (spawning the helper, driving the real window and tray)
//! lives outside, hands plain values in, and applies the returned actions.

pub mod fetch;
pub mod json;
pub mod text;
pub mod tray;
pub mod window;
