//! Loading of the package manager's configuration file: a TOML document is
//! read into a tree of values, checked to be a table, and its recognised
//! settings are projected onto a `Config`.

pub mod node;
pub mod repository;
pub mod config;
pub mod config_parser;
