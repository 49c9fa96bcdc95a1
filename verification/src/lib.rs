//! A typed builder for invocations of the `git` command-line tool.
//!
//! The crate assembles one `git init` invocation through chained, optional
//! configuration calls and finalizes it into an ordered vector of argument
//! tokens. It performs no process execution itself: the token vector is inert
//! data, ready to be handed to whatever facility actually spawns `git`.

use vstd::prelude::*;

pub mod init;

pub use crate::init::GitInitBuilder;
pub use crate::init::Shared;

verus! {

/// Entry point to the supported `git` subcommands. Each subcommand gets a
/// method that returns a fresh builder for it.
pub struct Git;

impl Git {
    /// Creates a builder for the `git init` subcommand, with every optional
    /// field unset.
    pub fn init() -> (r: GitInitBuilder)
        ensures
            r@ == crate::init::empty_model(),
    {
        GitInitBuilder::new()
    }
}

} // verus!
