//! A terminal password vault: the navigation rules of its screens, the
//! login-password and database-key derivations, and the sealing and opening
//! of the encrypted password database, each stated and proved with Verus.

pub mod page;
pub mod crypto;
pub mod clock;
pub mod entry;
pub mod error;
pub mod security;
pub mod database;
pub mod manager;
