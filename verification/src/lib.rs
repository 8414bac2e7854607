//! A personal note-taking core: folders of plain-text markdown notes,
//! compiled into styled runs for live rendering, mirrored to derived HTML
//! files, and kept in sync with external edits to the backing files.

pub mod compiler;
pub mod events;
pub mod export;
pub mod models;
pub mod settings;
pub mod store;
pub mod style;
pub mod sync;
pub mod textutil;
