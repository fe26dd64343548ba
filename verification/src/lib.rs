//! Account-credential core for a small registration service.
//!
//! Two validated value types, [`schema::Username`] and [`schema::Password`],
//! feed one persistence component, [`database::DbContext`], which assigns
//! uids, issues bearer tokens and refuses duplicate usernames.

pub mod config;
pub mod database;
pub mod register;
pub mod schema;
