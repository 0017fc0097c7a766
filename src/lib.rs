//! Core of an interactive shell whose commands are supplied by dynamically loaded plugins:
//! the sidecar metadata codec, plugin discovery, the lazily loading plugin registry, the
//! builtin commands, the dispatcher, and the resolution of the shell's directories.

pub mod builtins;
pub mod dirs;
pub mod discovery;
pub mod exec_result;
pub mod executor;
pub mod lazy;
pub mod metadata;
pub mod parse;
pub mod path;
pub mod registry;
pub mod text;
