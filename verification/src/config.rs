//! What the service is configured with.

use vstd::prelude::*;
use vstd::string::*;
use crate::location::{test_command, test_command_of, CommandLine};

verus! {

/// The configuration file's content.
#[derive(Clone, Debug, PartialEq, Eq)]
pub struct Config {
    /// The repository that the test script clones.
    pub repo: String,
}

/// What the command line says.
#[derive(Clone, Debug, PartialEq, Eq)]
pub struct Cli {
    /// Path of the configuration file.
    pub config: String,
}

/// What every request handler gets to see.
#[derive(Clone, Debug, PartialEq, Eq)]
pub struct AppState {
    pub cli: Cli,
    pub config: Config,
}

impl Cli {
    /// The command line that names no configuration file: the file is then
    /// `config.json` in the working directory.
    pub fn default_path() -> (cli: Cli)
        ensures
            cli.config@ == "./config.json"@,
    {
        Cli { config: "./config.json".to_owned() }
    }
}

impl AppState {
    /// The invocation of the test script for a branch and commit of the
    /// configured repository.
    pub fn test_command(&self, branch: &str, commit_id: &str) -> (line: CommandLine)
        ensures
            line@ == test_command_of(self.config.repo@, branch@, commit_id@),
    {
        test_command(self.config.repo.as_str(), branch, commit_id)
    }
}

/// The greeting for a visitor.
pub fn greeting(name: &str) -> (text: String)
    ensures
        text@ == "Hello, "@ + name@ + "!"@,
{
    "Hello, ".to_owned().concat(name).concat("!")
}

} // verus!
