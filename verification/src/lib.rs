//! A command registry: a mapping from command names to command values,
//! with a distinguished null command substituted for unregistered names.
//!
//! Every command's `execute` is a placeholder that fails with
//! [`command::ErrorKind::UnknownCommand`]; the registry guarantees that a
//! lookup is total, so resolving any name followed by `execute` always
//! yields that error.

pub mod command;
pub mod laws;
pub mod registry;
