use crate::key::Key;
use vstd::prelude::*;

verus! {

/// Why loading the key-binding configuration failed.
#[derive(Clone, Debug, PartialEq, Eq)]
pub enum ConfigError {
    /// The home directory could not be determined.
    HomeDirectoryNotFound,
    /// A configuration directory could not be created.
    DirectoryCreationFailed { reason: String },
    /// The configuration file could not be read.
    FileReadFailed { reason: String },
    /// The configuration file does not have the expected structure.
    DeserializationFailed { reason: String },
    /// A key description holds more than one '-' separator.
    TooManySections { input: String, count: usize },
    /// The first section of a key description is no known key name.
    UnknownKey { name: String },
    /// A `ctrl` or `alt` modifier has no character to modify.
    EmptyModifierTarget { modifier: String },
    /// The key is used for core navigation and cannot be rebound.
    ReservedKey { key: Key },
}

} // verus!
