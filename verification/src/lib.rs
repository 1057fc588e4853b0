//! Belfry's headless data layer: domain model, column encoding for the
//! SQLite store, fixture synthesis, XDG path resolution and the
//! `podcast:` namespace pass over feed XML.

pub mod errors;
pub mod text;
pub mod db;
pub mod paths;
pub mod fetch;
pub mod timestamps;
