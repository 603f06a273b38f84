//! Lifecycle and file-synchronisation core of the trait-definition editor
//! plugin: resolving a document's metadata file, tracking live editor
//! instances, and bridging save/reload requests to the document model.

pub mod resolver;
pub mod document;
pub mod registry;
pub mod error;
pub mod instance;
pub mod plugin;
pub mod laws;
