//! Server library: error classification, configuration, database
//! connection settings, password hashing, bearer tokens and the rules of the
//! user and login endpoints.

pub mod auth;
pub mod config;
pub mod database;
pub mod errors;
pub mod id;
pub mod password;
pub mod user;
pub mod validation;
