//! Configuration of a registry server: where it keeps its data and where it listens.

use crate::text::{decimal, decimal_string};
use std::path::PathBuf;
use vstd::prelude::*;
use vstd::string::StringExecFns;

verus! {

/// A filesystem path. Its contents are not inspected by this crate; a path is
/// only carried from the caller to whoever opens the directory.
#[verifier::external_type_specification]
#[verifier::external_body]
pub struct ExPathBuf(PathBuf);

/// `PathBuf::clone` returns a path equal to the one it was given.
pub assume_specification[ <PathBuf as Clone>::clone ](path: &PathBuf) -> (copy: PathBuf)
    ensures
        copy == *path,
;

/// Storage backend for registry data.
#[derive(Debug)]
pub enum StorageBackend {
    /// In-memory storage (data lost when server stops).
    Memory,
    /// Temporary directory storage (cleaned up automatically).
    TempDir,
    /// Persistent directory storage at a specific path.
    Directory(PathBuf),
}

/// Configuration for the registry server.
#[derive(Debug)]
pub struct RegistryConfig {
    /// Storage backend to use.
    pub storage: StorageBackend,
    /// Port to bind to (None for random port).
    pub port: Option<u16>,
    /// Host address to bind to.
    pub host: String,
}

impl Clone for StorageBackend {
    fn clone(&self) -> (copy: Self)
        ensures
            copy == *self,
    {
        match self {
            StorageBackend::Memory => StorageBackend::Memory,
            StorageBackend::TempDir => StorageBackend::TempDir,
            StorageBackend::Directory(path) => StorageBackend::Directory(path.clone()),
        }
    }
}

impl Clone for RegistryConfig {
    fn clone(&self) -> (copy: Self)
        ensures
            copy == *self,
    {
        RegistryConfig { storage: self.storage.clone(), port: self.port, host: self.host.clone() }
    }
}

/// The largest request body that the server accepts, in bytes.
pub const MAX_BODY_BYTES: usize = 512 * 1024 * 1024;

/// The host a fresh configuration binds to: the loopback address.
pub open spec fn default_host() -> Seq<char> {
    "127.0.0.1"@
}

impl RegistryConfig {
    /// Creates a new configuration with the specified storage backend.
    pub fn new(storage: StorageBackend) -> (config: Self)
        ensures
            config.storage == storage,
            config.port is None,
            config.host@ == default_host(),
    {
        Self { storage, port: None, host: "127.0.0.1".to_owned() }
    }

    /// Creates a configuration with in-memory storage.
    pub fn memory() -> (config: Self)
        ensures
            config.storage == StorageBackend::Memory,
            config.port is None,
            config.host@ == default_host(),
    {
        Self::new(StorageBackend::Memory)
    }

    /// Creates a configuration with temporary directory storage.
    pub fn temp_dir() -> (config: Self)
        ensures
            config.storage == StorageBackend::TempDir,
            config.port is None,
            config.host@ == default_host(),
    {
        Self::new(StorageBackend::TempDir)
    }

    /// Creates a configuration with directory storage at the specified path.
    pub fn directory(path: PathBuf) -> (config: Self)
        ensures
            config.storage == StorageBackend::Directory(path),
            config.port is None,
            config.host@ == default_host(),
    {
        Self::new(StorageBackend::Directory(path))
    }

    /// Sets a specific port for the server to bind to.
    pub fn with_port(self, port: u16) -> (config: Self)
        ensures
            config.port == Some(port),
            config.storage == self.storage,
            config.host == self.host,
    {
        let mut config = self;
        config.port = Some(port);
        config
    }

    /// Sets the host address for the server to bind to.
    pub fn with_host(self, host: &str) -> (config: Self)
        ensures
            config.host@ == host@,
            config.storage == self.storage,
            config.port == self.port,
    {
        let mut config = self;
        config.host = host.to_owned();
        config
    }

    /// The address the server binds to: the host, a colon and the port,
    /// with port zero standing for any free port.
    pub open spec fn spec_bind_address(&self) -> Seq<char> {
        self.host@ + ":"@ + decimal(
            match self.port {
                Some(port) => port as nat,
                None => 0,
            },
        )
    }

    /// The address the server binds to. Without a port it asks for port
    /// zero, which lets the system pick a free one.
    pub fn bind_address(&self) -> (address: String)
        ensures
            address@ == self.spec_bind_address(),
    {
        let port: usize = match self.port {
            Some(port) => port as usize,
            None => 0,
        };
        self.host.clone().concat(":").concat(decimal_string(port).as_str())
    }
}

impl Default for RegistryConfig {
    fn default() -> (config: Self)
        ensures
            config.storage == StorageBackend::Memory,
            config.port is None,
            config.host@ == default_host(),
    {
        Self::memory()
    }
}

} // verus!
