//! Project records kept in a single JSON document, with the screen logic of a
//! terminal browser over them.
pub mod db;
pub mod paths;
pub mod render;
pub mod screen;
pub mod time;
