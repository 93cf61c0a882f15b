//! Builds the guarded, boxed-future form of a slash-command handler from the
//! handler's definition and the configuration written in its attribute.
//!
//! [`SubCommandArgs`] is the configuration, [`SubCommandFunc`] the handler,
//! and [`format_subcommand`] makes the two into the definition that takes
//! the handler's place.
//!
//! - [`args`]: the grammar of the configuration, on tokens and on the
//!   answers to the question which identifiers may name a check.
//! - [`function`]: the handler's parts, and its form with all references
//!   under one lifetime.
//! - [`subcommand`]: the generated definition and its source text.
//! - [`guard`]: the generated body, with the guards for both build profiles.
//! - [`outcome`]: what the guards do on one use of a command.
//! - [`syntax`]: the calls into `proc_macro2`, `quote` and `syn`, none of
//!   them proved. Parsing a function is left to the caller, who hands the
//!   parsed item in.
//! - [`token`], [`text`]: tokens and pieces of text.

pub mod args;
pub mod function;
pub mod guard;
pub mod outcome;
pub mod subcommand;
pub mod syntax;
pub mod text;
pub mod token;

pub use args::SubCommandArgs;
pub use function::SubCommandFunc;
pub use subcommand::format_subcommand;
