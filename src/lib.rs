//! Theme voting: vote recording and unseen-theme selection, the decisions of
//! the browser-based sign-in handshake, and bearer credential checks.

pub mod auth;
pub mod credentials;
pub mod models;
pub mod selection;
pub mod store;
pub mod text;
pub mod votes;
