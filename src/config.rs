//! Credentials of the cloud account, and the commands that carry them.

use vstd::prelude::*;

verus! {

/// Access keys of the cloud account.
pub struct Config {
    pub aws_access_key: String,
    pub aws_secret_key: String,
}

impl Config {
    pub fn new(aws_access_key: &str, aws_secret_key: &str) -> (r: Config)
        ensures
            r.aws_access_key@ == aws_access_key@,
            r.aws_secret_key@ == aws_secret_key@,
    {
        Config { aws_access_key: String::from_str(aws_access_key), aws_secret_key: String::from_str(aws_secret_key) }
    }
}

/// The `init` command, holding its own copy of the credentials.
pub struct InitCommand {
    pub config: Config,
}

impl InitCommand {
    pub fn new(config: &Config) -> (r: InitCommand)
        ensures
            r.config.aws_access_key@ == config.aws_access_key@,
            r.config.aws_secret_key@ == config.aws_secret_key@,
    {
        InitCommand {
            config: Config { aws_access_key: config.aws_access_key.clone(), aws_secret_key: config.aws_secret_key.clone() },
        }
    }
}

/// Options of the initialisation handler.
pub struct InitParams {
    pub verbose: bool,
}

/// Initialisation handler; it has nothing to do beyond succeeding.
pub struct InitHandler {}

impl InitHandler {
    pub fn execute(&self, params: InitParams) -> (r: Result<(), String>)
        ensures
            r is Ok,
    {
        Ok(())
    }
}

} // verus!
