//! Configuration store of a desktop note-taking application: where the database file
//! lives, and the AI-provider settings, kept in one JSON document.
pub mod commands;
pub mod config;
pub mod json;
pub mod models;
pub mod schema;
pub mod size;
pub mod store;
pub mod text;
