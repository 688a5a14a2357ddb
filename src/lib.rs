//! Enrollment of a third-party account with a chat bot: a per-user session that
//! collects a confirmation, a username, a password and possibly a second-factor
//! code, and the client logic that checks those credentials with the identity
//! provider and classifies its answer.

pub mod dispatch;
pub mod registry;
pub mod session;
pub mod text;
pub mod verification;
