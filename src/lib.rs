//! A catalog of articles and pictures kept in step with watched folders.

pub mod articles;
pub mod catalog;
pub mod config;
pub mod error;
pub mod folders;
pub mod manifest;
pub mod paths;
pub mod pictures;
pub mod signal;
pub mod site;
pub mod store;
pub mod text;
