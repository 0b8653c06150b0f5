//! Error messages shown to users, the parsing of attribute argument lists,
//! and the decisions of the MySQL and MongoDB connectors.

pub mod mongodb;
pub mod mysql;
pub mod parse_arguments;
pub mod preview_features;
pub mod user_facing;
