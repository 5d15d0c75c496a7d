//! Key-binding configuration for a terminal music player: a grammar for key
//! names, a guard against rebinding reserved navigation keys, and a set of
//! bindings that user overrides are applied to.

mod config;
mod error;
mod key;
mod parse;
mod path;

pub use config::{
    accepted, applied, applied_through, blank, config_text_is_blank, default_bindings, fits,
    has_overrides, override_error, text_of, white_space, UserConfig, UserConfigPaths,
    UserConfigString, ACTION_COUNT,
};
pub use error::ConfigError;
pub use key::{check_reserved_keys, is_reserved, reserved_keys, Key};
pub use parse::{
    dash_sections, first_char, is_modifier, key_for_name, key_of, lower_of, modified_char,
    name_error, name_outcome, named_key, parse_error, parse_key, parse_outcome,
};
