//! Gamer-tag tracker for a group of lads: the request decisions, token
//! claims and text formats of the web application, verified.
pub mod text;
pub mod auth;
pub mod reply;
pub mod utils;
pub mod login;
pub mod tags;
pub mod assets;
pub mod config;
pub mod error;
