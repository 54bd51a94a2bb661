//! A small container registry for exercising push and pull workflows in tests.
//!
//! The crate holds the registry's logic: the storage abstraction with its
//! in-memory backend, the layout of the filesystem-backed store, content
//! digests, and the handlers that turn requests into storage operations and
//! responses. Sockets, files and the serving runtime belong to the program
//! that embeds it.

pub mod config;
pub mod digest;
pub mod disk;
pub mod error;
pub mod handlers;
pub mod http;
pub mod laws;
pub mod storage;
pub mod text;

pub use config::{RegistryConfig, StorageBackend};
pub use error::RegistryError;
pub use storage::{ManifestEntry, MemoryStorage, Storage};
