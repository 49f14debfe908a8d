//! A fluent builder for git command lines.
//!
//! A [`GitCommand`] accumulates the tokens of one git invocation: the program
//! name, at most one main subcommand (first call wins), modifier tokens, free
//! text, and the flags collected by a [`GitOptions`] sub-builder.  The
//! builder only ever appends tokens; `describe` serializes them into the
//! shell-invocable command line.  Actually spawning the subprocess is left to
//! the embedding program.

pub mod command;
pub mod laws;
pub mod options;
pub mod repo;
pub mod sanitize;
pub mod tokens;

pub use command::GitCommand;
pub use options::GitOptions;
pub use repo::find_repo_name;
pub use repo::find_repo_path;
pub use repo::find_repo_path_command;
