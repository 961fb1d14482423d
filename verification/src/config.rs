//! Process configuration: where backups live, the hash seed, and the local
//! username. The configuration is an explicit value constructed once at
//! startup and passed by reference into the components that need it.

use vstd::prelude::*;

verus! {

/// Failures of configuration handling. Variants that correspond to
/// serialization or I/O carry the underlying message as text.
#[derive(Debug)]
pub enum ConfigError {
    IOError(String),
    DeserializationError(String),
    SerializationError(String),
    InvalidPath(String),
    IllegalPath(String),
    UnknownFileName(String),
    UnknownPathParent(String),
}

/// The settings that drive the backup engine.
///
/// `xxhash_seed` is kept as a signed 64-bit value because the on-disk
/// configuration format stores it in a signed field; the hasher reinterprets
/// it as the unsigned 64-bit value with the same two's-complement bits.
#[derive(Debug, Clone, PartialEq)]
pub struct Config {
    pub db_location: String,
    pub data_location: String,
    pub xxhash_seed: i64,
    pub local_username: String,
}

/// The unsigned seed value that a signed stored seed denotes: the unique
/// `u64` congruent to it modulo 2^64.
pub open spec fn spec_seed(stored: i64) -> u64 {
    if stored >= 0 {
        stored as u64
    } else {
        (0x1_0000_0000_0000_0000 + stored) as u64
    }
}

impl Config {
    /// Replaces this configuration wholesale with `config`.
    pub fn update(&mut self, config: Config) -> (r: Result<(), ConfigError>)
        ensures
            r is Ok,
            *final(self) == config,
    {
        *self = config;
        Ok(())
    }

    /// Borrows the current configuration.
    pub fn static_config(&self) -> (r: &Config)
        ensures
            r == self,
    {
        self
    }

    /// Returns a copy of the current configuration.
    pub fn clone_config(&self) -> (r: Config)
        ensures
            r == *self,
    {
        Config {
            db_location: self.db_location.clone(),
            data_location: self.data_location.clone(),
            xxhash_seed: self.xxhash_seed,
            local_username: self.local_username.clone(),
        }
    }

    /// The hash seed as the unsigned value with the same bits.
    pub fn seed(&self) -> (r: u64)
        ensures
            r == spec_seed(self.xxhash_seed),
    {
        let s = self.xxhash_seed;
        if s >= 0 {
            s as u64
        } else {
            let t: u64 = (-(s + 1)) as u64;
            u64::MAX - t
        }
    }
}

/// Remembers where the configuration file lives. Reading and writing that
/// file is the caller's concern; this type only carries the location.
#[derive(Debug)]
pub struct ConfigManager {
    config_file_path: String,
}

impl ConfigManager {
    /// The location of the configuration file.
    pub closed spec fn spec_path(&self) -> Seq<char> {
        self.config_file_path@
    }

    /// Creates a manager that points at the configuration file at `path`.
    pub fn new(path: &str) -> (r: ConfigManager)
        ensures
            r.spec_path() == path@,
    {
        ConfigManager { config_file_path: path.to_owned() }
    }

    /// The path of the configuration file this manager points at.
    pub fn config_file_path(&self) -> (r: &str)
        ensures
            r@ == self.spec_path(),
    {
        self.config_file_path.as_str()
    }
}

} // verus!
