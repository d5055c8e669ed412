//! Fuzzy search over the open windows of a compositor session.
//!
//! The library scores window classes against a query, keeps the positive
//! matches, orders them by descending score (earlier windows first on equal
//! scores) and caps the list. It also decides the plugin's configuration
//! fallback, the candidates handed to the launcher, the focus selector of a
//! chosen candidate and the icon name found in a desktop entry.

pub mod config;
pub mod desktop;
pub mod plugin;
pub mod ranking;
pub mod scoring;
