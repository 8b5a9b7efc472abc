//! Core of an editor-to-client notification pipeline: path and URI
//! handling, debounced event coalescing, change handlers that turn editor
//! state into notifications, and the fan-out hub that delivers them.

pub mod buffer;
pub mod debounce;
pub mod error;
pub mod hub;
pub mod ide_ops;
pub mod json;
pub mod path;
pub mod selection;
pub mod strings;
pub mod visible_files;
