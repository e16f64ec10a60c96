//! The run context: the global flags of one run together with a configuration
//! that has passed validation.

use vstd::prelude::*;
use crate::config::{
    config_valid, first_unknown_reference, validate_config, Config, ConfigError,
};

verus! {

/// The global flags of a run.
#[derive(Debug, Clone, Copy, PartialEq, Eq, Structural)]
pub struct Args {
    /// Discard the tool's standard output and the informational lines.
    pub quiet: bool,
    /// Ask the tool to report what it would do without changing anything.
    pub dry_run: bool,
}

/// Everything an operation needs to know: the flags and the configuration.
/// A value of this type always holds a valid configuration.
#[derive(Debug)]
pub struct App {
    args: Args,
    config: Config,
}

impl App {
    #[verifier::type_invariant]
    spec fn holds_valid_config(&self) -> bool {
        config_valid(self.config)
    }

    /// The flags of this run.
    pub closed spec fn spec_args(&self) -> Args {
        self.args
    }

    /// The configuration of this run.
    pub closed spec fn spec_config(&self) -> Config {
        self.config
    }

    /// Builds the context of a run. The configuration is validated first, and
    /// an invalid one yields the validation error instead of a context.
    pub fn new(args: Args, config: Config) -> (built: Result<App, ConfigError>)
        ensures
            built is Ok <==> config_valid(config),
            built matches Ok(app) ==> app.spec_args() == args && app.spec_config() == config,
            built matches Err(error) ==> error matches ConfigError::UnknownRepo(name, origin)
                && first_unknown_reference(config, name@, origin),
    {
        match validate_config(config) {
            Ok(config) => Ok(App { args, config }),
            Err(error) => Err(error),
        }
    }

    /// The flags of this run.
    #[verifier::when_used_as_spec(spec_args)]
    pub fn args(&self) -> (args: Args)
        ensures
            args == self.spec_args(),
    {
        self.args
    }

    /// The configuration of this run, which is valid.
    pub fn config(&self) -> (config: &Config)
        ensures
            *config == self.spec_config(),
            config_valid(*config),
    {
        proof {
            use_type_invariant(self);
        }
        &self.config
    }
}

} // verus!
