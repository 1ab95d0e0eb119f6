//! What the command line asks for, as plain data.

use crate::text::{copy_text, join_path, joined};
use vstd::prelude::*;

verus! {

/// The name of the environment that is used unless one is named.
pub const DEFAULT_ENVIRONMENT: &'static str = "_default";

/// The tag that is used unless one is named.
pub const DEFAULT_TAG: &'static str = "latest";

/// The directory, below the user's home, that holds the data unless
/// another root is named.
pub const DEFAULT_ROOT_NAME: &'static str = ".orca";

/// The whole command line.
#[derive(Debug)]
pub struct Args {
    /// List the environments.
    pub list: bool,
    /// The environment to work on.
    pub name: String,
    /// The directory that holds all data.
    pub root: String,
    pub action: Action,
}

/// What is to be done.
#[derive(Debug)]
pub enum Action {
    /// Set up an environment.
    Init(InitArgs),
    /// Run a command in the environment.
    Run(RunArgs),
    /// Show the commits of the current branch.
    Log(LogArgs),
    /// Record the changes.
    Commit(CommitArgs),
    /// List, create or delete branches.
    Branch(BranchArgs),
    /// Join two branches.
    Merge(TargetArgs),
    /// Show the changes since the last commit.
    Diff,
    /// Throw the changes since the last commit away.
    Clean,
    /// Move the current branch to a commit.
    Reset(TargetArgs),
    /// Switch to a branch or a commit.
    Checkout(TargetArgs),
}

#[derive(Debug)]
pub struct InitArgs {
    /// The container image to use in place of the host.
    pub image: Option<String>,
    /// The tag of that image.
    pub tag: String,
    /// The name of the environment to create.
    pub name: String,
}

#[derive(Debug)]
pub struct RunArgs {
    /// Whether the command gets a network namespace of its own.
    pub netns: bool,
    /// The command to run.
    pub command: Option<String>,
    /// The command's arguments.
    pub args: Option<Vec<String>>,
}

#[derive(Debug)]
pub struct LogArgs {
    /// Show all branches.
    pub all: bool,
}

#[derive(Debug)]
pub struct CommitArgs {
    pub message: Option<String>,
}

#[derive(Debug)]
pub struct BranchArgs {
    /// The branch to create or delete.
    pub branch_name: Option<String>,
    /// Delete the branch.
    pub delete: bool,
    /// Show all branches.
    pub all: bool,
}

#[derive(Debug)]
pub struct TargetArgs {
    /// A branch, or the beginning of a commit id.
    pub query: String,
}

/// The directory `dir_name` below the home directory `home`.
pub fn default_rootdir(home: &str, dir_name: &str) -> (root: String)
    ensures
        root@ == joined(home@, dir_name@),
{
    join_path(home, dir_name)
}

impl Args {
    /// The command line that asks for `action` and leaves everything else
    /// at its default: the default environment, kept below the home
    /// directory `home`.
    pub fn new(home: &str, action: Action) -> (args: Self)
        ensures
            !args.list,
            args.name@ == DEFAULT_ENVIRONMENT@,
            args.root@ == joined(home@, DEFAULT_ROOT_NAME@),
            args.action == action,
    {
        Args {
            list: false,
            name: copy_text(DEFAULT_ENVIRONMENT),
            root: default_rootdir(home, DEFAULT_ROOT_NAME),
            action,
        }
    }
}

impl InitArgs {
    /// The defaults: the host as image, the default tag and environment.
    pub fn new() -> (args: Self)
        ensures
            args.image is None,
            args.tag@ == DEFAULT_TAG@,
            args.name@ == DEFAULT_ENVIRONMENT@,
    {
        InitArgs { image: None, tag: copy_text(DEFAULT_TAG), name: copy_text(DEFAULT_ENVIRONMENT) }
    }
}

} // verus!
