use vstd::prelude::*;

verus! {

/// Failure to build a configuration from the command-line arguments.
#[derive(Debug, Clone, Copy, PartialEq, Eq, Structural)]
pub enum ConfigError {
    /// Fewer positional values than required were given.
    InsufficientArguments { expected: usize, received: usize },
}

} // verus!
