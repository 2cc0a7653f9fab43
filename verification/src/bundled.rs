//! The study notes that ship with the tool, one module per content
//! directory.
pub mod cloud;
pub mod system_design;
pub mod databases;
pub mod networking;
