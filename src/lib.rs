//! A verified core for a command-line client of a Redmine server: configuration
//! precedence, named profiles, a cached list of time-tracking activities, the
//! rules that turn HTTP outcomes into errors and retries, and request building.

pub mod text;
pub mod error;
pub mod profile;
pub mod config;
pub mod cache;
pub mod http;
pub mod output;
pub mod models;
pub mod requests;
pub mod commands;
pub mod grouping;
