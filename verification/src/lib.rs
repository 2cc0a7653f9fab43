//! An offline, keyboard-driven study tool for software engineering
//! interview prep: its navigation state machine, its bundled study notes,
//! frontmatter handling and markdown rendering.

pub mod app;
pub mod bundled;
pub mod content;
pub mod events;
pub mod markdown;
pub mod modules;
pub mod text;
