//! Domain model, the column encoding used by the SQLite store, migrations,
//! the writer's request kinds and fixture synthesis.

pub mod domain;
pub mod rows;
pub mod fixtures;
pub mod pool;
pub mod migrations;
pub mod command;
