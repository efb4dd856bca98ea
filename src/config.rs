use vstd::prelude::*;

use crate::error::ConfigError;

verus! {

/// Number of positional values the tool requires: a query and a path.
pub const REQUIRED_POSITIONAL: usize = 2;

/// Number of positional values in an argument list whose first entry is the
/// program name.
pub open spec fn positional_count(n: nat) -> nat {
    if n == 0 { 0 } else { (n - 1) as nat }
}

/// The validated inputs of one search: what to look for, where, and how.
#[derive(Debug, Clone)]
pub struct Config {
    pub query: String,
    pub filename: String,
    pub case_insensitive: bool,
}

impl Config {
    /// Builds a configuration from `args` (program name, query, path, ...),
    /// copying the query and path; further values are ignored.
    pub fn build(args: &[String], case_insensitive: bool) -> (r: Result<Config, ConfigError>)
        ensures
            args@.len() < 3 <==> r is Err,
            r is Err ==> r == Err::<Config, ConfigError>(
                ConfigError::InsufficientArguments {
                    expected: REQUIRED_POSITIONAL,
                    received: positional_count(args@.len() as nat) as usize,
                },
            ),
            r is Ok ==> {
                &&& r->Ok_0.query@ == args@[1]@
                &&& r->Ok_0.filename@ == args@[2]@
                &&& r->Ok_0.case_insensitive == case_insensitive
            },
    {
        if args.len() < 3 {
            let received: usize = if args.len() == 0 { 0 } else { args.len() - 1 };
            return Err(ConfigError::InsufficientArguments { expected: REQUIRED_POSITIONAL, received });
        }
        let query = args[1].clone();
        let filename = args[2].clone();
        Ok(Config { query, filename, case_insensitive })
    }

    /// Builds a case-sensitive configuration from `args`; see [`Config::build`].
    pub fn new(args: &[String]) -> (r: Result<Config, ConfigError>)
        ensures
            args@.len() < 3 <==> r is Err,
            r is Err ==> r == Err::<Config, ConfigError>(
                ConfigError::InsufficientArguments {
                    expected: REQUIRED_POSITIONAL,
                    received: positional_count(args@.len() as nat) as usize,
                },
            ),
            r is Ok ==> {
                &&& r->Ok_0.query@ == args@[1]@
                &&& r->Ok_0.filename@ == args@[2]@
                &&& !r->Ok_0.case_insensitive
            },
    {
        Config::build(args, false)
    }
}

/// Reads the query and path from an argument list known to hold both.
pub fn parse_config(args: &[String]) -> (c: Config)
    requires
        args@.len() >= 3,
    ensures
        c.query@ == args@[1]@,
        c.filename@ == args@[2]@,
        !c.case_insensitive,
{
    let query = args[1].clone();
    let filename = args[2].clone();
    Config { query, filename, case_insensitive: false }
}

} // verus!
